pub mod colour;
pub mod json;
pub mod model;
pub mod queue;
pub mod send;
pub mod timestamp;

pub use colour::ColourType;
pub use queue::WebhookQueue;
pub use send::SendError;
pub use timestamp::Timestamp;
pub use model::{
    Author, AuthorView, Component, ComponentView, Embed, EmbedView, Field, FieldView, Footer,
    FooterView, Image, MediaView, Provider, ProviderView, Thumbnail, Video, Webhook, WebhookView,
};
