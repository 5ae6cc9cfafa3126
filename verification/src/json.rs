use vstd::prelude::*;

use crate::model::{
    Author, AuthorView, Embed, EmbedView, Field, FieldView, Footer, FooterView, MediaView,
    Provider, ProviderView,
};

verus! {

// The wire body is JSON built by hand, so that what is sent is exactly what
// the specification functions below describe: members of absent optionals
// are omitted entirely, never rendered as null.

/// The decimal digit as a character.
pub open spec fn dec_digit_char(n: nat) -> char {
    if n == 0 {
        '0'
    } else if n == 1 {
        '1'
    } else if n == 2 {
        '2'
    } else if n == 3 {
        '3'
    } else if n == 4 {
        '4'
    } else if n == 5 {
        '5'
    } else if n == 6 {
        '6'
    } else if n == 7 {
        '7'
    } else if n == 8 {
        '8'
    } else {
        '9'
    }
}

/// The hexadecimal digit as a lower-case character.
pub open spec fn hex_digit_char(n: nat) -> char {
    if n < 10 {
        dec_digit_char(n)
    } else if n == 10 {
        'a'
    } else if n == 11 {
        'b'
    } else if n == 12 {
        'c'
    } else if n == 13 {
        'd'
    } else if n == 14 {
        'e'
    } else {
        'f'
    }
}

/// The decimal rendering of a number, most significant digit first.
pub open spec fn dec_str(n: nat) -> Seq<char>
    decreases n,
{
    if n < 10 {
        seq![dec_digit_char(n)]
    } else {
        dec_str(n / 10).push(dec_digit_char(n % 10))
    }
}

/// How one character is written inside a JSON string: quote and backslash
/// get a backslash, the named control characters their short escape, any
/// other control character the \u00XX form, and everything else stands as
/// it is.
pub open spec fn json_escape_char(c: char) -> Seq<char> {
    if c == '"' {
        seq!['\\', '"']
    } else if c == '\\' {
        seq!['\\', '\\']
    } else if c as u32 == 8 {
        seq!['\\', 'b']
    } else if c as u32 == 9 {
        seq!['\\', 't']
    } else if c as u32 == 10 {
        seq!['\\', 'n']
    } else if c as u32 == 12 {
        seq!['\\', 'f']
    } else if c as u32 == 13 {
        seq!['\\', 'r']
    } else if (c as u32) < 32 {
        let hi = hex_digit_char((c as u32 / 16) as nat);
        let lo = hex_digit_char((c as u32 % 16) as nat);
        seq!['\\', 'u', '0', '0', hi, lo]
    } else {
        seq![c]
    }
}

/// The text escaped character by character.
pub open spec fn json_escaped(s: Seq<char>) -> Seq<char>
    decreases s.len(),
{
    if s.len() == 0 {
        Seq::empty()
    } else {
        json_escaped(s.drop_last()) + json_escape_char(s.last())
    }
}

/// A JSON string: the escaped text between quotes.
pub open spec fn json_string(s: Seq<char>) -> Seq<char> {
    seq!['"'] + json_escaped(s) + seq!['"']
}

/// A JSON boolean.
pub open spec fn json_bool(b: bool) -> Seq<char> {
    if b {
        "true"@
    } else {
        "false"@
    }
}

/// The parts joined by commas.
pub open spec fn comma_joined(parts: Seq<Seq<char>>) -> Seq<char>
    decreases parts.len(),
{
    if parts.len() == 0 {
        Seq::empty()
    } else if parts.len() == 1 {
        parts[0]
    } else {
        comma_joined(parts.drop_last()) + seq![','] + parts.last()
    }
}

/// A JSON object with the given members.
pub open spec fn json_object(parts: Seq<Seq<char>>) -> Seq<char> {
    seq!['{'] + comma_joined(parts) + seq!['}']
}

/// A JSON array with the given items.
pub open spec fn json_array(parts: Seq<Seq<char>>) -> Seq<char> {
    seq!['['] + comma_joined(parts) + seq![']']
}

/// One member of an object: the key as a JSON string, a colon, the
/// already-rendered value.
pub open spec fn member(key: Seq<char>, value: Seq<char>) -> Seq<char> {
    json_string(key) + seq![':'] + value
}

/// The member for an optional string: present exactly when the string is.
pub open spec fn opt_str_member(key: Seq<char>, v: Option<Seq<char>>) -> Seq<Seq<char>> {
    match v {
        Some(s) => seq![member(key, json_string(s))],
        None => Seq::empty(),
    }
}

/// The member for an optional number: present exactly when the number is.
pub open spec fn opt_num_member(key: Seq<char>, v: Option<usize>) -> Seq<Seq<char>> {
    match v {
        Some(n) => seq![member(key, dec_str(n as nat))],
        None => Seq::empty(),
    }
}

/// The views of a sequence of strings, in the same order.
pub open spec fn views_of_strings(s: Seq<String>) -> Seq<Seq<char>> {
    Seq::new(s.len(), |i: int| s[i]@)
}

proof fn lemma_views_of_strings_push(s: Seq<String>, x: String)
    ensures
        views_of_strings(s.push(x)) == views_of_strings(s) + seq![x@],
{
    assert(views_of_strings(s.push(x)) =~= views_of_strings(s) + seq![x@]);
}

/// Relies on std's `String::push`: appends one character.
#[verifier::external_body]
fn push_char(out: &mut String, c: char)
    ensures
        final(out)@ == old(out)@.push(c),
{
    out.push(c);
}

fn write_escaped(out: &mut String, s: &str)
    ensures
        final(out)@ == old(out)@ + json_escaped(s@),
{
    let ghost base = out@;
    let n = s.unicode_len();
    let mut i: usize = 0;
    proof {
        assert(json_escaped(s@.take(0)) =~= Seq::<char>::empty());
        assert(out@ =~= base + json_escaped(s@.take(0)));
    }
    while i < n
        invariant
            i <= n,
            n == s@.len(),
            out@ == base + json_escaped(s@.take(i as int)),
        decreases n - i,
    {
        let c = s.get_char(i);
        let ghost prev = out@;
        let u = c as u32;
        if c == '"' {
            push_char(out, '\\');
            push_char(out, '"');
        } else if c == '\\' {
            push_char(out, '\\');
            push_char(out, '\\');
        } else if u == 8 {
            push_char(out, '\\');
            push_char(out, 'b');
        } else if u == 9 {
            push_char(out, '\\');
            push_char(out, 't');
        } else if u == 10 {
            push_char(out, '\\');
            push_char(out, 'n');
        } else if u == 12 {
            push_char(out, '\\');
            push_char(out, 'f');
        } else if u == 13 {
            push_char(out, '\\');
            push_char(out, 'r');
        } else if u < 32 {
            push_char(out, '\\');
            push_char(out, 'u');
            push_char(out, '0');
            push_char(out, '0');
            push_char(out, hex_char((u / 16) as u8));
            push_char(out, hex_char((u % 16) as u8));
        } else {
            push_char(out, c);
        }
        proof {
            assert(out@ =~= prev + json_escape_char(c));
            let t = s@.take(i + 1);
            assert(t.drop_last() =~= s@.take(i as int));
            assert(t.last() == s@[i as int]);
            assert(out@ =~= base + json_escaped(s@.take(i + 1)));
        }
        i += 1;
    }
    proof {
        assert(s@.take(n as int) =~= s@);
    }
}

fn dec_char(d: u8) -> (r: char)
    requires
        d < 10,
    ensures
        r == dec_digit_char(d as nat),
{
    match d {
        0 => '0',
        1 => '1',
        2 => '2',
        3 => '3',
        4 => '4',
        5 => '5',
        6 => '6',
        7 => '7',
        8 => '8',
        _ => '9',
    }
}

fn hex_char(d: u8) -> (r: char)
    requires
        d < 16,
    ensures
        r == hex_digit_char(d as nat),
{
    if d < 10 {
        dec_char(d)
    } else {
        match d {
            10 => 'a',
            11 => 'b',
            12 => 'c',
            13 => 'd',
            14 => 'e',
            _ => 'f',
        }
    }
}

fn write_dec(out: &mut String, n: usize)
    ensures
        final(out)@ == old(out)@ + dec_str(n as nat),
    decreases n,
{
    if n < 10 {
        push_char(out, dec_char(n as u8));
        proof {
            assert(final(out)@ =~= old(out)@ + dec_str(n as nat));
        }
    } else {
        write_dec(out, n / 10);
        push_char(out, dec_char((n % 10) as u8));
        proof {
            assert(out@ =~= old(out)@ + dec_str(n as nat));
        }
    }
}

fn write_json_string(out: &mut String, s: &str)
    ensures
        final(out)@ == old(out)@ + json_string(s@),
{
    push_char(out, '"');
    write_escaped(out, s);
    push_char(out, '"');
    proof {
        assert(out@ =~= old(out)@ + json_string(s@));
    }
}

/// One member with a string value, rendered on its own.
fn member_string(key: &str, value: &str) -> (r: String)
    ensures
        r@ == member(key@, json_string(value@)),
{
    let mut out = String::new();
    write_json_string(&mut out, key);
    push_char(&mut out, ':');
    write_json_string(&mut out, value);
    proof {
        assert(out@ =~= member(key@, json_string(value@)));
    }
    out
}

/// One member with a numeric value, rendered on its own.
fn member_number(key: &str, n: usize) -> (r: String)
    ensures
        r@ == member(key@, dec_str(n as nat)),
{
    let mut out = String::new();
    write_json_string(&mut out, key);
    push_char(&mut out, ':');
    write_dec(&mut out, n);
    proof {
        assert(out@ =~= member(key@, dec_str(n as nat)));
    }
    out
}

/// One member with a boolean value, rendered on its own.
fn member_bool(key: &str, b: bool) -> (r: String)
    ensures
        r@ == member(key@, json_bool(b)),
{
    let mut out = String::new();
    write_json_string(&mut out, key);
    push_char(&mut out, ':');
    if b {
        out.append("true");
    } else {
        out.append("false");
    }
    proof {
        assert(out@ =~= member(key@, json_bool(b)));
    }
    out
}

/// One member whose value is already rendered, as an object or array is.
fn member_raw(key: &str, value: &str) -> (r: String)
    ensures
        r@ == member(key@, value@),
{
    let mut out = String::new();
    write_json_string(&mut out, key);
    push_char(&mut out, ':');
    out.append(value);
    proof {
        assert(out@ =~= member(key@, value@));
    }
    out
}

fn write_joined(out: &mut String, parts: &Vec<String>)
    ensures
        final(out)@ == old(out)@ + comma_joined(views_of_strings(parts@)),
{
    let ghost base = out@;
    let ghost all = views_of_strings(parts@);
    let n = parts.len();
    let mut i: usize = 0;
    proof {
        assert(comma_joined(all.take(0)) =~= Seq::<char>::empty());
        assert(out@ =~= base + comma_joined(all.take(0)));
    }
    while i < n
        invariant
            i <= n,
            n == parts@.len(),
            all == views_of_strings(parts@),
            out@ == base + comma_joined(all.take(i as int)),
        decreases n - i,
    {
        let ghost prev = out@;
        if i > 0 {
            push_char(out, ',');
        }
        out.append(parts[i].as_str());
        proof {
            assert(all[i as int] == parts@[i as int]@);
            let t = all.take(i + 1);
            assert(t.drop_last() =~= all.take(i as int));
            assert(t.last() == all[i as int]);
            if i == 0 {
                assert(out@ =~= base + comma_joined(all.take(1)));
            } else {
                assert(out@ =~= base + comma_joined(all.take(i + 1)));
            }
        }
        i += 1;
    }
    proof {
        assert(all.take(n as int) =~= all);
    }
}

/// An object rendered from its members.
fn object_json(parts: &Vec<String>) -> (r: String)
    ensures
        r@ == json_object(views_of_strings(parts@)),
{
    let mut out = String::new();
    push_char(&mut out, '{');
    write_joined(&mut out, parts);
    push_char(&mut out, '}');
    proof {
        assert(out@ =~= json_object(views_of_strings(parts@)));
    }
    out
}

/// An array rendered from its items.
fn array_json(parts: &Vec<String>) -> (r: String)
    ensures
        r@ == json_array(views_of_strings(parts@)),
{
    let mut out = String::new();
    push_char(&mut out, '[');
    write_joined(&mut out, parts);
    push_char(&mut out, ']');
    proof {
        assert(out@ =~= json_array(views_of_strings(parts@)));
    }
    out
}

fn push_member(parts: &mut Vec<String>, m: String)
    ensures
        views_of_strings(final(parts)@) == views_of_strings(old(parts)@) + seq![m@],
{
    let ghost before = parts@;
    let ghost mg = m;
    parts.push(m);
    proof {
        lemma_views_of_strings_push(before, mg);
    }
}

fn push_opt_str_member(parts: &mut Vec<String>, key: &str, v: &Option<String>)
    ensures
        views_of_strings(final(parts)@) == views_of_strings(old(parts)@) + opt_str_member(
            key@,
            v.deep_view(),
        ),
{
    match v {
        Some(s) => {
            push_member(parts, member_string(key, s.as_str()));
            proof {
                assert(views_of_strings(parts@) =~= views_of_strings(old(parts)@)
                    + opt_str_member(key@, v.deep_view()));
            }
        },
        None => {
            proof {
                assert(views_of_strings(parts@) =~= views_of_strings(old(parts)@)
                    + opt_str_member(key@, v.deep_view()));
            }
        },
    }
}

fn push_opt_num_member(parts: &mut Vec<String>, key: &str, v: &Option<usize>)
    ensures
        views_of_strings(final(parts)@) == views_of_strings(old(parts)@) + opt_num_member(
            key@,
            *v,
        ),
{
    match v {
        Some(n) => {
            push_member(parts, member_number(key, *n));
            proof {
                assert(views_of_strings(parts@) =~= views_of_strings(old(parts)@)
                    + opt_num_member(key@, *v));
            }
        },
        None => {
            proof {
                assert(views_of_strings(parts@) =~= views_of_strings(old(parts)@)
                    + opt_num_member(key@, *v));
            }
        },
    }
}

/// The members of a footer object: the text, then whichever icon URLs are
/// set.
pub open spec fn footer_members(f: FooterView) -> Seq<Seq<char>> {
    seq![member("text"@, json_string(f.text))] + opt_str_member("icon_url"@, f.icon_url)
        + opt_str_member("proxy_icon_url"@, f.proxy_icon_url)
}

pub open spec fn footer_json(f: FooterView) -> Seq<char> {
    json_object(footer_members(f))
}

fn render_footer(f: &Footer) -> (r: String)
    ensures
        r@ == footer_json(f@),
{
    let mut parts: Vec<String> = Vec::new();
    proof {
        assert(views_of_strings(parts@) =~= Seq::<Seq<char>>::empty());
    }
    push_member(&mut parts, member_string("text", f.text.as_str()));
    push_opt_str_member(&mut parts, "icon_url", &f.icon_url);
    push_opt_str_member(&mut parts, "proxy_icon_url", &f.proxy_icon_url);
    proof {
        assert(views_of_strings(parts@) =~= footer_members(f@));
    }
    object_json(&parts)
}

/// The members of an image, thumbnail or video object: the URL, then
/// whichever of the proxy URL and the dimensions are set.
pub open spec fn media_members(m: MediaView) -> Seq<Seq<char>> {
    seq![member("url"@, json_string(m.url))] + opt_str_member("proxy_url"@, m.proxy_url)
        + opt_num_member("height"@, m.height) + opt_num_member("width"@, m.width)
}

pub open spec fn media_json(m: MediaView) -> Seq<char> {
    json_object(media_members(m))
}

fn render_media(
    url: &String,
    proxy_url: &Option<String>,
    height: Option<usize>,
    width: Option<usize>,
) -> (r: String)
    ensures
        r@ == media_json(
            MediaView { url: url@, proxy_url: proxy_url.deep_view(), height, width },
        ),
{
    let mut parts: Vec<String> = Vec::new();
    proof {
        assert(views_of_strings(parts@) =~= Seq::<Seq<char>>::empty());
    }
    push_member(&mut parts, member_string("url", url.as_str()));
    push_opt_str_member(&mut parts, "proxy_url", proxy_url);
    push_opt_num_member(&mut parts, "height", &height);
    push_opt_num_member(&mut parts, "width", &width);
    proof {
        assert(views_of_strings(parts@) =~= media_members(
            MediaView { url: url@, proxy_url: proxy_url.deep_view(), height, width },
        ));
    }
    object_json(&parts)
}

/// The members of a provider object: whichever of the name and URL are set.
pub open spec fn provider_members(p: ProviderView) -> Seq<Seq<char>> {
    opt_str_member("name"@, p.name) + opt_str_member("url"@, p.url)
}

pub open spec fn provider_json(p: ProviderView) -> Seq<char> {
    json_object(provider_members(p))
}

fn render_provider(p: &Provider) -> (r: String)
    ensures
        r@ == provider_json(p@),
{
    let mut parts: Vec<String> = Vec::new();
    proof {
        assert(views_of_strings(parts@) =~= Seq::<Seq<char>>::empty());
    }
    push_opt_str_member(&mut parts, "name", &p.name);
    push_opt_str_member(&mut parts, "url", &p.url);
    proof {
        assert(views_of_strings(parts@) =~= provider_members(p@));
    }
    object_json(&parts)
}

/// The members of an author object: the name, then whichever URLs are set.
pub open spec fn author_members(a: AuthorView) -> Seq<Seq<char>> {
    seq![member("name"@, json_string(a.name))] + opt_str_member("url"@, a.url) + opt_str_member(
        "icon_url"@,
        a.icon_url,
    ) + opt_str_member("proxy_icon_url"@, a.proxy_icon_url)
}

pub open spec fn author_json(a: AuthorView) -> Seq<char> {
    json_object(author_members(a))
}

fn render_author(a: &Author) -> (r: String)
    ensures
        r@ == author_json(a@),
{
    let mut parts: Vec<String> = Vec::new();
    proof {
        assert(views_of_strings(parts@) =~= Seq::<Seq<char>>::empty());
    }
    push_member(&mut parts, member_string("name", a.name.as_str()));
    push_opt_str_member(&mut parts, "url", &a.url);
    push_opt_str_member(&mut parts, "icon_url", &a.icon_url);
    push_opt_str_member(&mut parts, "proxy_icon_url", &a.proxy_icon_url);
    proof {
        assert(views_of_strings(parts@) =~= author_members(a@));
    }
    object_json(&parts)
}

/// The members of a field object: always the name, the value and the inline
/// flag.
pub open spec fn field_json(f: FieldView) -> Seq<char> {
    json_object(
        seq![
            member("name"@, json_string(f.name)),
            member("value"@, json_string(f.value)),
            member("inline"@, json_bool(f.inline)),
        ],
    )
}

fn render_field(f: &Field) -> (r: String)
    ensures
        r@ == field_json(f@),
{
    let mut parts: Vec<String> = Vec::new();
    proof {
        assert(views_of_strings(parts@) =~= Seq::<Seq<char>>::empty());
    }
    push_member(&mut parts, member_string("name", f.name.as_str()));
    push_member(&mut parts, member_string("value", f.value.as_str()));
    push_member(&mut parts, member_bool("inline", f.inline));
    proof {
        assert(views_of_strings(parts@) =~= seq![
            member("name"@, json_string(f@.name)),
            member("value"@, json_string(f@.value)),
            member("inline"@, json_bool(f@.inline)),
        ]);
    }
    object_json(&parts)
}

/// Every field rendered, in order.
pub open spec fn fields_items(fs: Seq<FieldView>) -> Seq<Seq<char>> {
    fs.map_values(|f: FieldView| field_json(f))
}

fn render_fields_array(fs: &Vec<Field>) -> (r: String)
    ensures
        r@ == json_array(fields_items(fs.deep_view())),
{
    let ghost all = fs.deep_view();
    let mut parts: Vec<String> = Vec::new();
    let n = fs.len();
    let mut i: usize = 0;
    proof {
        assert(all.len() == n);
        assert(views_of_strings(parts@) =~= fields_items(all.take(0)));
    }
    while i < n
        invariant
            i <= n,
            n == fs@.len(),
            all == fs.deep_view(),
            all.len() == n,
            views_of_strings(parts@) == fields_items(all.take(i as int)),
        decreases n - i,
    {
        let ghost before = views_of_strings(parts@);
        let m = render_field(&fs[i]);
        proof {
            assert(fs@[i as int].deep_view() == all[i as int]);
        }
        push_member(&mut parts, m);
        proof {
            assert(views_of_strings(parts@) =~= fields_items(all.take(i + 1)));
        }
        i += 1;
    }
    proof {
        assert(all.take(n as int) =~= all);
    }
    array_json(&parts)
}

/// The members of an embed object, in the order of the wire schema: the
/// type discriminator and the field list always appear; every other member
/// appears exactly when it is set.
pub open spec fn embed_members(e: EmbedView) -> Seq<Seq<char>> {
    opt_str_member("title"@, e.title) + seq![member("type"@, json_string(e.embed_type))]
        + opt_str_member("description"@, e.description) + opt_str_member("url"@, e.url)
        + opt_str_member("timestamp"@, e.timestamp) + opt_num_member("color"@, e.color) + (
    match e.footer {
        Some(f) => seq![member("footer"@, footer_json(f))],
        None => Seq::<Seq<char>>::empty(),
    }) + (match e.image {
        Some(m) => seq![member("image"@, media_json(m))],
        None => Seq::<Seq<char>>::empty(),
    }) + (match e.thumbnail {
        Some(m) => seq![member("thumbnail"@, media_json(m))],
        None => Seq::<Seq<char>>::empty(),
    }) + (match e.video {
        Some(m) => seq![member("video"@, media_json(m))],
        None => Seq::<Seq<char>>::empty(),
    }) + (match e.provider {
        Some(p) => seq![member("provider"@, provider_json(p))],
        None => Seq::<Seq<char>>::empty(),
    }) + (match e.author {
        Some(a) => seq![member("author"@, author_json(a))],
        None => Seq::<Seq<char>>::empty(),
    }) + seq![member("fields"@, json_array(fields_items(e.fields)))]
}

pub open spec fn embed_json(e: EmbedView) -> Seq<char> {
    json_object(embed_members(e))
}

pub(crate) fn render_embed(e: &Embed) -> (r: String)
    ensures
        r@ == embed_json(e@),
{
    let mut parts: Vec<String> = Vec::new();
    proof {
        assert(views_of_strings(parts@) =~= Seq::<Seq<char>>::empty());
    }
    push_opt_str_member(&mut parts, "title", &e.title);
    push_member(&mut parts, member_string("type", "rich"));
    push_opt_str_member(&mut parts, "description", &e.description);
    push_opt_str_member(&mut parts, "url", &e.url);
    push_opt_str_member(&mut parts, "timestamp", &e.timestamp);
    push_opt_num_member(&mut parts, "color", &e.color);
    match &e.footer {
        Some(f) => push_member(&mut parts, member_raw("footer", render_footer(f).as_str())),
        None => (),
    }
    match &e.image {
        Some(m) => push_member(
            &mut parts,
            member_raw("image", render_media(&m.url, &m.proxy_url, m.height, m.width).as_str()),
        ),
        None => (),
    }
    match &e.thumbnail {
        Some(m) => push_member(
            &mut parts,
            member_raw(
                "thumbnail",
                render_media(&m.url, &m.proxy_url, m.height, m.width).as_str(),
            ),
        ),
        None => (),
    }
    match &e.video {
        Some(m) => push_member(
            &mut parts,
            member_raw("video", render_media(&m.url, &m.proxy_url, m.height, m.width).as_str()),
        ),
        None => (),
    }
    match &e.provider {
        Some(p) => push_member(&mut parts, member_raw("provider", render_provider(p).as_str())),
        None => (),
    }
    match &e.author {
        Some(a) => push_member(&mut parts, member_raw("author", render_author(a).as_str())),
        None => (),
    }
    push_member(&mut parts, member_raw("fields", render_fields_array(&e.fields).as_str()));
    proof {
        assert(views_of_strings(parts@) =~= embed_members(e@));
    }
    object_json(&parts)
}

/// Every embed rendered, in order.
pub open spec fn embeds_items(es: Seq<EmbedView>) -> Seq<Seq<char>> {
    es.map_values(|e: EmbedView| embed_json(e))
}

/// The views of a sequence of embeds, in the same order.
pub open spec fn views_of_embeds(s: Seq<Embed>) -> Seq<EmbedView> {
    Seq::new(s.len(), |i: int| s[i]@)
}

pub(crate) fn render_embeds_array(es: &Vec<Embed>) -> (r: String)
    ensures
        r@ == json_array(embeds_items(views_of_embeds(es@))),
{
    let ghost all = views_of_embeds(es@);
    let mut parts: Vec<String> = Vec::new();
    let n = es.len();
    let mut i: usize = 0;
    proof {
        assert(all.len() == n);
        assert(views_of_strings(parts@) =~= embeds_items(all.take(0)));
    }
    while i < n
        invariant
            i <= n,
            n == es@.len(),
            all == views_of_embeds(es@),
            all.len() == n,
            views_of_strings(parts@) == embeds_items(all.take(i as int)),
        decreases n - i,
    {
        let m = render_embed(&es[i]);
        proof {
            assert(es@[i as int]@ == all[i as int]);
        }
        push_member(&mut parts, m);
        proof {
            assert(views_of_strings(parts@) =~= embeds_items(all.take(i + 1)));
        }
        i += 1;
    }
    proof {
        assert(all.take(n as int) =~= all);
    }
    array_json(&parts)
}

/// The members of the wire body: whichever of the text members are set,
/// then the embeds, then the always-empty component list. The destination
/// URL is never among them.
pub open spec fn payload_members(w: crate::model::WebhookView) -> Seq<Seq<char>> {
    opt_str_member("content"@, w.content) + opt_str_member("username"@, w.username)
        + opt_str_member("avatar_url"@, w.avatar_url) + seq![
        member("embeds"@, json_array(embeds_items(w.embeds))),
        member("components"@, json_array(Seq::<Seq<char>>::empty())),
    ]
}

/// The whole wire body.
pub open spec fn payload_json(w: crate::model::WebhookView) -> Seq<char> {
    json_object(payload_members(w))
}

pub(crate) fn render_payload_body(
    content: &Option<String>,
    username: &Option<String>,
    avatar_url: &Option<String>,
    embeds: &Vec<Embed>,
) -> (r: String)
    ensures
        r@ == json_object(
            opt_str_member("content"@, content.deep_view()) + opt_str_member(
                "username"@,
                username.deep_view(),
            ) + opt_str_member("avatar_url"@, avatar_url.deep_view()) + seq![
                member("embeds"@, json_array(embeds_items(views_of_embeds(embeds@)))),
                member("components"@, json_array(Seq::<Seq<char>>::empty())),
            ],
        ),
{
    let mut parts: Vec<String> = Vec::new();
    proof {
        assert(views_of_strings(parts@) =~= Seq::<Seq<char>>::empty());
    }
    push_opt_str_member(&mut parts, "content", content);
    push_opt_str_member(&mut parts, "username", username);
    push_opt_str_member(&mut parts, "avatar_url", avatar_url);
    push_member(&mut parts, member_raw("embeds", render_embeds_array(embeds).as_str()));
    let none: Vec<String> = Vec::new();
    proof {
        assert(views_of_strings(none@) =~= Seq::<Seq<char>>::empty());
    }
    push_member(&mut parts, member_raw("components", array_json(&none).as_str()));
    proof {
        assert(views_of_strings(parts@) =~= opt_str_member("content"@, content.deep_view())
            + opt_str_member("username"@, username.deep_view()) + opt_str_member(
            "avatar_url"@,
            avatar_url.deep_view(),
        ) + seq![
            member("embeds"@, json_array(embeds_items(views_of_embeds(embeds@)))),
            member("components"@, json_array(Seq::<Seq<char>>::empty())),
        ]);
    }
    object_json(&parts)
}

} // verus!
