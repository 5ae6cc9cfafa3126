use vstd::prelude::*;

verus! {

/// A name/value pair displayed within an embed.
#[derive(Debug, Clone, PartialEq, Eq)]
pub struct Field {
    pub name: String,
    pub value: String,
    pub inline: bool,
}

pub ghost struct FieldView {
    pub name: Seq<char>,
    pub value: Seq<char>,
    pub inline: bool,
}

impl View for Field {
    type V = FieldView;

    open spec fn view(&self) -> FieldView {
        FieldView { name: self.name@, value: self.value@, inline: self.inline }
    }
}

impl DeepView for Field {
    type V = FieldView;

    open spec fn deep_view(&self) -> FieldView {
        self.view()
    }
}

impl Field {
    pub fn new(name: &str, value: &str, inline: bool) -> (r: Field)
        ensures
            r@ == (FieldView { name: name@, value: value@, inline }),
    {
        Field { name: name.to_owned(), value: value.to_owned(), inline }
    }
}

/// The footer block of an embed.
#[derive(Debug, Clone, PartialEq, Eq)]
pub struct Footer {
    pub text: String,
    pub icon_url: Option<String>,
    pub proxy_icon_url: Option<String>,
}

pub ghost struct FooterView {
    pub text: Seq<char>,
    pub icon_url: Option<Seq<char>>,
    pub proxy_icon_url: Option<Seq<char>>,
}

impl View for Footer {
    type V = FooterView;

    open spec fn view(&self) -> FooterView {
        FooterView {
            text: self.text@,
            icon_url: self.icon_url.deep_view(),
            proxy_icon_url: self.proxy_icon_url.deep_view(),
        }
    }
}

/// A view shared by the image, thumbnail and video blocks of an embed.
pub ghost struct MediaView {
    pub url: Seq<char>,
    pub proxy_url: Option<Seq<char>>,
    pub height: Option<usize>,
    pub width: Option<usize>,
}

/// The image block of an embed.
#[derive(Debug, Clone, PartialEq, Eq)]
pub struct Image {
    pub url: String,
    pub proxy_url: Option<String>,
    pub height: Option<usize>,
    pub width: Option<usize>,
}

impl View for Image {
    type V = MediaView;

    open spec fn view(&self) -> MediaView {
        MediaView {
            url: self.url@,
            proxy_url: self.proxy_url.deep_view(),
            height: self.height,
            width: self.width,
        }
    }
}

/// The thumbnail block of an embed.
#[derive(Debug, Clone, PartialEq, Eq)]
pub struct Thumbnail {
    pub url: String,
    pub proxy_url: Option<String>,
    pub height: Option<usize>,
    pub width: Option<usize>,
}

impl View for Thumbnail {
    type V = MediaView;

    open spec fn view(&self) -> MediaView {
        MediaView {
            url: self.url@,
            proxy_url: self.proxy_url.deep_view(),
            height: self.height,
            width: self.width,
        }
    }
}

/// The video block of an embed.
#[derive(Debug, Clone, PartialEq, Eq)]
pub struct Video {
    pub url: String,
    pub proxy_url: Option<String>,
    pub height: Option<usize>,
    pub width: Option<usize>,
}

impl View for Video {
    type V = MediaView;

    open spec fn view(&self) -> MediaView {
        MediaView {
            url: self.url@,
            proxy_url: self.proxy_url.deep_view(),
            height: self.height,
            width: self.width,
        }
    }
}

/// The provider block of an embed.
#[derive(Debug, Clone, PartialEq, Eq)]
pub struct Provider {
    pub name: Option<String>,
    pub url: Option<String>,
}

pub ghost struct ProviderView {
    pub name: Option<Seq<char>>,
    pub url: Option<Seq<char>>,
}

impl View for Provider {
    type V = ProviderView;

    open spec fn view(&self) -> ProviderView {
        ProviderView { name: self.name.deep_view(), url: self.url.deep_view() }
    }
}

/// The author block of an embed.
#[derive(Debug, Clone, PartialEq, Eq)]
pub struct Author {
    pub name: String,
    pub url: Option<String>,
    pub icon_url: Option<String>,
    pub proxy_icon_url: Option<String>,
}

pub ghost struct AuthorView {
    pub name: Seq<char>,
    pub url: Option<Seq<char>>,
    pub icon_url: Option<Seq<char>>,
    pub proxy_icon_url: Option<Seq<char>>,
}

impl View for Author {
    type V = AuthorView;

    open spec fn view(&self) -> AuthorView {
        AuthorView {
            name: self.name@,
            url: self.url.deep_view(),
            icon_url: self.icon_url.deep_view(),
            proxy_icon_url: self.proxy_icon_url.deep_view(),
        }
    }
}

/// One rich content block inside a payload. The type discriminator is not a
/// field a caller could touch: every embed's type is the constant "rich".
#[derive(Debug, Clone, PartialEq, Eq)]
pub struct Embed {
    pub title: Option<String>,
    pub description: Option<String>,
    pub url: Option<String>,
    pub timestamp: Option<String>,
    pub color: Option<usize>,
    pub footer: Option<Footer>,
    pub image: Option<Image>,
    pub thumbnail: Option<Thumbnail>,
    pub video: Option<Video>,
    pub provider: Option<Provider>,
    pub author: Option<Author>,
    pub fields: Vec<Field>,
}

pub ghost struct EmbedView {
    pub title: Option<Seq<char>>,
    pub embed_type: Seq<char>,
    pub description: Option<Seq<char>>,
    pub url: Option<Seq<char>>,
    pub timestamp: Option<Seq<char>>,
    pub color: Option<usize>,
    pub footer: Option<FooterView>,
    pub image: Option<MediaView>,
    pub thumbnail: Option<MediaView>,
    pub video: Option<MediaView>,
    pub provider: Option<ProviderView>,
    pub author: Option<AuthorView>,
    pub fields: Seq<FieldView>,
}

pub open spec fn opt_view<T: View>(o: Option<T>) -> Option<T::V> {
    match o {
        Some(v) => Some(v@),
        None => None,
    }
}

impl View for Embed {
    type V = EmbedView;

    open spec fn view(&self) -> EmbedView {
        EmbedView {
            title: self.title.deep_view(),
            embed_type: "rich"@,
            description: self.description.deep_view(),
            url: self.url.deep_view(),
            timestamp: self.timestamp.deep_view(),
            color: self.color,
            footer: opt_view(self.footer),
            image: opt_view(self.image),
            thumbnail: opt_view(self.thumbnail),
            video: opt_view(self.video),
            provider: opt_view(self.provider),
            author: opt_view(self.author),
            fields: self.fields.deep_view(),
        }
    }
}

/// A reserved interactive component; within this crate no component is ever
/// attached, so a payload's component list is always empty.
#[derive(Debug, Clone, PartialEq, Eq)]
pub struct Component {}

pub ghost struct ComponentView {}

impl View for Component {
    type V = ComponentView;

    open spec fn view(&self) -> ComponentView {
        ComponentView {}
    }
}

impl DeepView for Component {
    type V = ComponentView;

    open spec fn deep_view(&self) -> ComponentView {
        self.view()
    }
}

/// A full message to deliver in one request: optional text plus an ordered
/// list of embeds. The destination URL is fixed at construction and is not
/// part of the serialized body.
#[derive(Debug, Clone, PartialEq, Eq)]
pub struct Webhook {
    webhook_url: String,
    pub content: Option<String>,
    pub username: Option<String>,
    pub avatar_url: Option<String>,
    pub embeds: Vec<Embed>,
}

pub ghost struct WebhookView {
    pub webhook_url: Seq<char>,
    pub content: Option<Seq<char>>,
    pub username: Option<Seq<char>>,
    pub avatar_url: Option<Seq<char>>,
    pub embeds: Seq<EmbedView>,
    pub components: Seq<ComponentView>,
}

impl View for Webhook {
    type V = WebhookView;

    closed spec fn view(&self) -> WebhookView {
        WebhookView {
            webhook_url: self.webhook_url@,
            content: self.content.deep_view(),
            username: self.username.deep_view(),
            avatar_url: self.avatar_url.deep_view(),
            embeds: Seq::new(self.embeds@.len(), |i: int| self.embeds@[i]@),
            components: Seq::empty(),
        }
    }
}

impl DeepView for Webhook {
    type V = WebhookView;

    open spec fn deep_view(&self) -> WebhookView {
        self.view()
    }
}

impl Webhook {
    /// Builds an empty message bound to a destination URL.
    pub fn new(webhook_url: &str) -> (r: Webhook)
        ensures
            r@ == (WebhookView {
                webhook_url: webhook_url@,
                content: None,
                username: None,
                avatar_url: None,
                embeds: Seq::empty(),
                components: Seq::empty(),
            }),
    {
        let r = Webhook {
            webhook_url: webhook_url.to_owned(),
            content: None,
            username: None,
            avatar_url: None,
            embeds: Vec::new(),
        };
        proof {
            assert(r@.embeds =~= Seq::<EmbedView>::empty());
        }
        r
    }

    /// The destination URL given at construction.
    pub fn webhook_url(&self) -> (r: &str)
        ensures
            r@ == self@.webhook_url,
    {
        self.webhook_url.as_str()
    }

    pub fn set_content(self, content: &str) -> (r: Webhook)
        ensures
            r@ == (WebhookView { content: Some(content@), ..self@ }),
    {
        let mut this = self;
        this.content = Some(content.to_owned());
        this
    }

    pub fn set_username(self, username: &str) -> (r: Webhook)
        ensures
            r@ == (WebhookView { username: Some(username@), ..self@ }),
    {
        let mut this = self;
        this.username = Some(username.to_owned());
        this
    }

    pub fn set_avatar_url(self, url: &str) -> (r: Webhook)
        ensures
            r@ == (WebhookView { avatar_url: Some(url@), ..self@ }),
    {
        let mut this = self;
        this.avatar_url = Some(url.to_owned());
        this
    }

    pub fn add_embed(self, embed: Embed) -> (r: Webhook)
        ensures
            r@ == (WebhookView { embeds: self@.embeds.push(embed@), ..self@ }),
    {
        let ghost before = self@.embeds;
        let ghost ev = embed@;
        let mut this = self;
        this.embeds.push(embed);
        proof {
            assert(this@.embeds =~= before.push(ev));
        }
        this
    }

    /// The serialized wire body of this message: the exact JSON text that a
    /// delivery posts. The destination URL is not part of it.
    pub fn body_json(&self) -> (r: String)
        ensures
            r@ == crate::json::payload_json(self@),
    {
        let r = crate::json::render_payload_body(
            &self.content,
            &self.username,
            &self.avatar_url,
            &self.embeds,
        );
        proof {
            assert(crate::json::views_of_embeds(self.embeds@) =~= self@.embeds);
            assert(r@ == crate::json::payload_json(self@));
        }
        r
    }

    /// The reserved component list; always empty within this crate.
    pub fn components(&self) -> (r: Vec<Component>)
        ensures
            r.deep_view() == self@.components,
            r@.len() == 0,
    {
        let r = Vec::new();
        proof {
            assert(r.deep_view() =~= Seq::<ComponentView>::empty());
        }
        r
    }
}

impl Embed {
    /// Builds an empty embed; the type discriminator is always "rich".
    pub fn new() -> (r: Embed)
        ensures
            r@ == (EmbedView {
                title: None,
                embed_type: "rich"@,
                description: None,
                url: None,
                timestamp: None,
                color: None,
                footer: None,
                image: None,
                thumbnail: None,
                video: None,
                provider: None,
                author: None,
                fields: Seq::empty(),
            }),
    {
        let r = Embed {
            title: None,
            description: None,
            url: None,
            timestamp: None,
            color: None,
            footer: None,
            image: None,
            thumbnail: None,
            video: None,
            provider: None,
            author: None,
            fields: Vec::new(),
        };
        proof {
            assert(r@.fields =~= Seq::<FieldView>::empty());
        }
        r
    }

    /// The type discriminator; "rich" on every embed.
    pub fn embed_type(&self) -> (r: &str)
        ensures
            r@ == self@.embed_type,
    {
        "rich"
    }

    pub fn set_title(self, title: &str) -> (r: Embed)
        ensures
            r@ == (EmbedView { title: Some(title@), ..self@ }),
    {
        let mut this = self;
        this.title = Some(title.to_owned());
        this
    }

    pub fn set_description(self, description: &str) -> (r: Embed)
        ensures
            r@ == (EmbedView { description: Some(description@), ..self@ }),
    {
        let mut this = self;
        this.description = Some(description.to_owned());
        this
    }

    pub fn set_url(self, url: &str) -> (r: Embed)
        ensures
            r@ == (EmbedView { url: Some(url@), ..self@ }),
    {
        let mut this = self;
        this.url = Some(url.to_owned());
        this
    }

    pub fn set_footer(
        self,
        text: &str,
        icon_url: Option<&str>,
        proxy_icon_url: Option<&str>,
    ) -> (r: Embed)
        ensures
            r@ == (EmbedView {
                footer: Some(FooterView {
                    text: text@,
                    icon_url: icon_url.deep_view(),
                    proxy_icon_url: proxy_icon_url.deep_view(),
                }),
                ..self@
            }),
    {
        let mut this = self;
        this.footer = Some(Footer {
            text: text.to_owned(),
            icon_url: copy_opt_str(icon_url),
            proxy_icon_url: copy_opt_str(proxy_icon_url),
        });
        this
    }

    pub fn set_image(
        self,
        url: &str,
        proxy_url: Option<&str>,
        height: Option<usize>,
        width: Option<usize>,
    ) -> (r: Embed)
        ensures
            r@ == (EmbedView {
                image: Some(MediaView {
                    url: url@,
                    proxy_url: proxy_url.deep_view(),
                    height,
                    width,
                }),
                ..self@
            }),
    {
        let mut this = self;
        this.image = Some(Image {
            url: url.to_owned(),
            proxy_url: copy_opt_str(proxy_url),
            height,
            width,
        });
        this
    }

    pub fn set_thumbnail(
        self,
        url: &str,
        proxy_url: Option<&str>,
        height: Option<usize>,
        width: Option<usize>,
    ) -> (r: Embed)
        ensures
            r@ == (EmbedView {
                thumbnail: Some(MediaView {
                    url: url@,
                    proxy_url: proxy_url.deep_view(),
                    height,
                    width,
                }),
                ..self@
            }),
    {
        let mut this = self;
        this.thumbnail = Some(Thumbnail {
            url: url.to_owned(),
            proxy_url: copy_opt_str(proxy_url),
            height,
            width,
        });
        this
    }

    pub fn set_video(
        self,
        url: &str,
        proxy_url: Option<&str>,
        height: Option<usize>,
        width: Option<usize>,
    ) -> (r: Embed)
        ensures
            r@ == (EmbedView {
                video: Some(MediaView {
                    url: url@,
                    proxy_url: proxy_url.deep_view(),
                    height,
                    width,
                }),
                ..self@
            }),
    {
        let mut this = self;
        this.video = Some(Video {
            url: url.to_owned(),
            proxy_url: copy_opt_str(proxy_url),
            height,
            width,
        });
        this
    }

    pub fn set_provider(self, name: Option<&str>, url: Option<&str>) -> (r: Embed)
        ensures
            r@ == (EmbedView {
                provider: Some(ProviderView {
                    name: name.deep_view(),
                    url: url.deep_view(),
                }),
                ..self@
            }),
    {
        let mut this = self;
        this.provider = Some(Provider { name: copy_opt_str(name), url: copy_opt_str(url) });
        this
    }

    pub fn set_author(
        self,
        name: &str,
        url: Option<&str>,
        icon_url: Option<&str>,
        proxy_icon_url: Option<&str>,
    ) -> (r: Embed)
        ensures
            r@ == (EmbedView {
                author: Some(AuthorView {
                    name: name@,
                    url: url.deep_view(),
                    icon_url: icon_url.deep_view(),
                    proxy_icon_url: proxy_icon_url.deep_view(),
                }),
                ..self@
            }),
    {
        let mut this = self;
        this.author = Some(Author {
            name: name.to_owned(),
            url: copy_opt_str(url),
            icon_url: copy_opt_str(icon_url),
            proxy_icon_url: copy_opt_str(proxy_icon_url),
        });
        this
    }

    /// Appends one field after all fields already present.
    pub fn add_field(self, name: &str, value: &str, inline: bool) -> (r: Embed)
        ensures
            r@ == (EmbedView {
                fields: self@.fields.push(FieldView { name: name@, value: value@, inline }),
                ..self@
            }),
    {
        let ghost before = self@.fields;
        let field = Field { name: name.to_owned(), value: value.to_owned(), inline };
        let ghost fv = field@;
        let mut this = self;
        this.fields.push(field);
        proof {
            assert(this@.fields =~= before.push(fv));
        }
        this
    }

    /// Appends a batch of fields, in the order supplied, after all fields
    /// already present; the batch vector is left empty.
    pub fn add_fields(self, fields: &mut Vec<Field>) -> (r: Embed)
        ensures
            r@ == (EmbedView { fields: self@.fields + old(fields).deep_view(), ..self@ }),
            final(fields)@.len() == 0,
    {
        let ghost before = self@.fields;
        let ghost batch = fields.deep_view();
        let mut this = self;
        this.fields.append(fields);
        proof {
            assert(this@.fields =~= before + batch);
        }
        this
    }
}

/// Law: the type discriminator of every embed is exactly "rich"; no builder
/// call can change it.
pub proof fn lemma_embed_type_rich(e: &Embed)
    ensures
        e@.embed_type == "rich"@,
{
}

fn copy_opt_str(s: Option<&str>) -> (r: Option<String>)
    ensures
        r.deep_view() == s.deep_view(),
{
    match s {
        Some(v) => Some(v.to_owned()),
        None => None,
    }
}

} // verus!
