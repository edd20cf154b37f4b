use vstd::prelude::*;
use vstd::string::{StrSliceExecFns, StringExecFns};

use crate::errors::{message_of, ServiceError};
use crate::record::{opt_chars, ProfileRecord, RecordModel};
use crate::text::{push_char, str_eq};

verus! {

/// The lower-case hexadecimal digit for a value below sixteen.
pub open spec fn hex_digit(d: int) -> char {
    if d == 0 {
        '0'
    } else if d == 1 {
        '1'
    } else if d == 2 {
        '2'
    } else if d == 3 {
        '3'
    } else if d == 4 {
        '4'
    } else if d == 5 {
        '5'
    } else if d == 6 {
        '6'
    } else if d == 7 {
        '7'
    } else if d == 8 {
        '8'
    } else if d == 9 {
        '9'
    } else if d == 10 {
        'a'
    } else if d == 11 {
        'b'
    } else if d == 12 {
        'c'
    } else if d == 13 {
        'd'
    } else if d == 14 {
        'e'
    } else {
        'f'
    }
}

fn hex_digit_ex(d: u8) -> (c: char)
    requires
        d < 16,
    ensures
        c == hex_digit(d as int),
{
    if d == 0 {
        '0'
    } else if d == 1 {
        '1'
    } else if d == 2 {
        '2'
    } else if d == 3 {
        '3'
    } else if d == 4 {
        '4'
    } else if d == 5 {
        '5'
    } else if d == 6 {
        '6'
    } else if d == 7 {
        '7'
    } else if d == 8 {
        '8'
    } else if d == 9 {
        '9'
    } else if d == 10 {
        'a'
    } else if d == 11 {
        'b'
    } else if d == 12 {
        'c'
    } else if d == 13 {
        'd'
    } else if d == 14 {
        'e'
    } else {
        'f'
    }
}

/// How one character appears inside a JSON string literal: quotes and
/// backslashes are escaped, control characters take their short escape or a
/// hexadecimal one, everything else stands as itself.
pub open spec fn escape_char(c: char) -> Seq<char> {
    if c == '"' {
        seq!['\\', '"']
    } else if c == '\\' {
        seq!['\\', '\\']
    } else if c == '\u{8}' {
        seq!['\\', 'b']
    } else if c == '\u{9}' {
        seq!['\\', 't']
    } else if c == '\u{A}' {
        seq!['\\', 'n']
    } else if c == '\u{C}' {
        seq!['\\', 'f']
    } else if c == '\u{D}' {
        seq!['\\', 'r']
    } else if (c as int) < 32 {
        seq!['\\', 'u', '0', '0', hex_digit((c as int) / 16), hex_digit((c as int) % 16)]
    } else {
        seq![c]
    }
}

/// A text rendered as the inside of a JSON string literal.
pub open spec fn escape_text(s: Seq<char>) -> Seq<char>
    decreases s.len(),
{
    if s.len() == 0 {
        Seq::empty()
    } else {
        escape_char(s[0]) + escape_text(s.drop_first())
    }
}

pub proof fn lemma_escape_snoc(t: Seq<char>, c: char)
    ensures
        escape_text(t.push(c)) == escape_text(t) + escape_char(c),
    decreases t.len(),
{
    if t.len() == 0 {
        assert(t.push(c)[0] == c);
        assert(t.push(c).drop_first() =~= Seq::<char>::empty());
        assert(escape_text(Seq::<char>::empty()) == Seq::<char>::empty());
        assert(escape_text(t.push(c)) == escape_char(c) + escape_text(t.push(c).drop_first()));
        assert(escape_text(t) == Seq::<char>::empty());
        assert(escape_text(t.push(c)) =~= escape_text(t) + escape_char(c));
    } else {
        assert(t.push(c)[0] == t[0]);
        assert(t.push(c).drop_first() =~= t.drop_first().push(c));
        assert(escape_text(t.push(c)) == escape_char(t[0]) + escape_text(t.drop_first().push(c)));
        lemma_escape_snoc(t.drop_first(), c);
        assert(escape_text(t) == escape_char(t[0]) + escape_text(t.drop_first()));
        assert(escape_text(t.push(c)) =~= escape_text(t) + escape_char(c));
    }
}

fn append_escaped_char(out: &mut String, c: char)
    ensures
        final(out)@ == old(out)@ + escape_char(c),
{
    if c == '"' {
        out.append("\\\"");
        proof {
            reveal_strlit("\\\"");
            assert(out@ =~= old(out)@ + escape_char(c));
        }
    } else if c == '\\' {
        out.append("\\\\");
        proof {
            reveal_strlit("\\\\");
            assert(out@ =~= old(out)@ + escape_char(c));
        }
    } else if c == '\u{8}' {
        out.append("\\b");
        proof {
            reveal_strlit("\\b");
            assert(out@ =~= old(out)@ + escape_char(c));
        }
    } else if c == '\u{9}' {
        out.append("\\t");
        proof {
            reveal_strlit("\\t");
            assert(out@ =~= old(out)@ + escape_char(c));
        }
    } else if c == '\u{A}' {
        out.append("\\n");
        proof {
            reveal_strlit("\\n");
            assert(out@ =~= old(out)@ + escape_char(c));
        }
    } else if c == '\u{C}' {
        out.append("\\f");
        proof {
            reveal_strlit("\\f");
            assert(out@ =~= old(out)@ + escape_char(c));
        }
    } else if c == '\u{D}' {
        out.append("\\r");
        proof {
            reveal_strlit("\\r");
            assert(out@ =~= old(out)@ + escape_char(c));
        }
    } else if (c as u32) < 32 {
        let d = c as u32;
        out.append("\\u00");
        let h1 = hex_digit_ex((d / 16) as u8);
        push_char(out, h1);
        let h2 = hex_digit_ex((d % 16) as u8);
        push_char(out, h2);
        proof {
            reveal_strlit("\\u00");
            assert(("\\u00")@ =~= seq!['\\', 'u', '0', '0']);
            assert(out@ =~= old(out)@ + escape_char(c));
        }
    } else {
        push_char(out, c);
        proof {
            assert(out@ =~= old(out)@ + escape_char(c));
        }
    }
}

/// Renders a text as the inside of a JSON string literal.
pub fn escape_json(s: &str) -> (r: String)
    ensures
        r@ == escape_text(s@),
{
    let n = s.unicode_len();
    let mut out = String::new();
    let mut i: usize = 0;
    while i < n
        invariant
            n == s@.len(),
            i <= n,
            out@ == escape_text(s@.take(i as int)),
        decreases n - i,
    {
        let c = s.get_char(i);
        append_escaped_char(&mut out, c);
        proof {
            assert(s@.take(i as int).push(s@[i as int]) =~= s@.take((i + 1) as int));
            lemma_escape_snoc(s@.take(i as int), s@[i as int]);
        }
        i += 1;
    }
    proof {
        assert(s@.take(n as int) =~= s@);
    }
    out
}

/// A text as a complete JSON string literal, quotes included.
pub open spec fn quoted(s: Seq<char>) -> Seq<char> {
    seq!['"'] + escape_text(s) + seq!['"']
}

fn append_quoted(out: &mut String, s: &str)
    ensures
        final(out)@ == old(out)@ + quoted(s@),
{
    push_char(out, '"');
    let e = escape_json(s);
    out.append(e.as_str());
    push_char(out, '"');
    proof {
        assert(out@ =~= old(out)@ + quoted(s@));
    }
}

/// An optional text as a JSON value: a string literal when present, `null`
/// when absent.
pub open spec fn opt_json(o: Option<Seq<char>>) -> Seq<char> {
    match o {
        Some(s) => quoted(s),
        None => seq!['n', 'u', 'l', 'l'],
    }
}

fn append_opt_json(out: &mut String, o: &Option<String>)
    ensures
        final(out)@ == old(out)@ + opt_json(opt_chars(*o)),
{
    match o {
        Some(s) => {
            append_quoted(out, s.as_str());
        },
        None => {
            out.append("null");
            proof {
                reveal_strlit("null");
                assert(out@ =~= old(out)@ + opt_json(None));
            }
        },
    }
}

/// The machine-readable success body: a fixed-shape JSON document holding
/// the record's fields, with `status` success and no message.
pub open spec fn profile_json(m: RecordModel) -> Seq<char> {
    "{\"status\":\"success\",\"data\":{\"global_name\":"@ + opt_json(m.display_name)
        + ",\"username\":"@ + quoted(m.username) + ",\"banner_color\":"@ + opt_json(m.accent_color)
        + ",\"avatar\":"@ + quoted(m.avatar_ref) + ",\"bio\":"@ + quoted(m.bio)
        + "},\"message\":null}"@
}

/// Builds the JSON success body for a resolved record.
pub fn json_profile_body(rec: &ProfileRecord) -> (r: String)
    ensures
        r@ == profile_json(rec@),
{
    let mut out = String::from_str("{\"status\":\"success\",\"data\":{\"global_name\":");
    append_opt_json(&mut out, &rec.display_name);
    out.append(",\"username\":");
    append_quoted(&mut out, rec.username.as_str());
    out.append(",\"banner_color\":");
    append_opt_json(&mut out, &rec.accent_color);
    out.append(",\"avatar\":");
    append_quoted(&mut out, rec.avatar_ref.as_str());
    out.append(",\"bio\":");
    append_quoted(&mut out, rec.bio.as_str());
    out.append("},\"message\":null}");
    proof {
        assert(out@ =~= profile_json(rec@));
    }
    out
}

/// The structured error body served at the HTTP boundary.
pub open spec fn error_json(msg: Seq<char>) -> Seq<char> {
    "{\"status\":\"error\",\"message\":"@ + quoted(msg) + "}"@
}

/// Builds the JSON error body for a surfaced fault.
pub fn error_body(e: &ServiceError) -> (r: String)
    ensures
        r@ == error_json(message_of(e@)),
{
    let msg = e.message();
    let mut out = String::from_str("{\"status\":\"error\",\"message\":");
    append_quoted(&mut out, msg.as_str());
    out.append("}");
    proof {
        assert(out@ =~= error_json(message_of(e@)));
    }
    out
}

/// The deterministically constructed avatar image location.
pub open spec fn avatar_url_of(id: Seq<char>, avatar_ref: Seq<char>) -> Seq<char> {
    "https://cdn.discordapp.com/avatars/"@ + id + "/"@ + avatar_ref + "?size=2048"@
}

/// Builds the avatar image location from the identifier and avatar
/// reference.
pub fn avatar_url(id: &str, avatar_ref: &str) -> (r: String)
    ensures
        r@ == avatar_url_of(id@, avatar_ref@),
{
    let mut out = String::from_str("https://cdn.discordapp.com/avatars/");
    out.append(id);
    out.append("/");
    out.append(avatar_ref);
    out.append("?size=2048");
    out
}

/// The page title: the display name when present, else the username.
pub open spec fn og_title_of(m: RecordModel) -> Seq<char> {
    match m.display_name {
        Some(d) => d,
        None => m.username,
    }
}

/// The banner color token: the accent color when present, else a fixed
/// default.
pub open spec fn theme_color_of(m: RecordModel) -> Seq<char> {
    match m.accent_color {
        Some(a) => a,
        None => "#2563eb"@,
    }
}

/// The browser-facing success body: a fixed-shape HTML document whose
/// OpenGraph tags hold the record's data and whose script navigates to the
/// canonical profile page; served with a success status so that crawlers
/// read the tags before any navigation.
pub open spec fn html_page(m: RecordModel, id: Seq<char>) -> Seq<char> {
    "<!DOCTYPE html>\n<html>\n<head>\n<meta property=\"og:title\" content=\""@ + og_title_of(m)
        + "\">\n<meta name=\"theme-color\" content=\""@ + theme_color_of(m)
        + "\">\n<meta property=\"og:url\" content=\"https://discord.com/users/"@ + id
        + "\" />\n<meta property=\"og:site_name\" content=\"Discord\" />\n<meta property=\"og:image\" content=\""@
        + avatar_url_of(id, m.avatar_ref) + "\" />\n<meta property=\"og:description\" content=\""@
        + m.bio
        + "\" />\n</head>\n<body>\n</body>\n<script>\nwindow.location.replace(\"https://discord.com/users/"@
        + id + "\");\n</script>\n</html>\n"@
}

/// Builds the HTML success body for a resolved record.
pub fn html_profile_body(rec: &ProfileRecord, id: &str) -> (r: String)
    ensures
        r@ == html_page(rec@, id@),
{
    let mut out = String::from_str(
        "<!DOCTYPE html>\n<html>\n<head>\n<meta property=\"og:title\" content=\"",
    );
    match &rec.display_name {
        Some(d) => out.append(d.as_str()),
        None => out.append(rec.username.as_str()),
    }
    out.append("\">\n<meta name=\"theme-color\" content=\"");
    match &rec.accent_color {
        Some(a) => out.append(a.as_str()),
        None => out.append("#2563eb"),
    }
    out.append("\">\n<meta property=\"og:url\" content=\"https://discord.com/users/");
    out.append(id);
    out.append("\" />\n<meta property=\"og:site_name\" content=\"Discord\" />\n<meta property=\"og:image\" content=\"");
    let av = avatar_url(id, rec.avatar_ref.as_str());
    out.append(av.as_str());
    out.append("\" />\n<meta property=\"og:description\" content=\"");
    out.append(rec.bio.as_str());
    out.append("\" />\n</head>\n<body>\n</body>\n<script>\nwindow.location.replace(\"https://discord.com/users/");
    out.append(id);
    out.append("\");\n</script>\n</html>\n");
    proof {
        assert(out@ =~= html_page(rec@, id@));
    }
    out
}

/// The caller receives the machine-readable form exactly when the accept
/// header equals "application/json"; every other caller receives HTML.
pub fn wants_json(accept: Option<&str>) -> (r: bool)
    ensures
        r == match accept {
            Some(a) => a@ == "application/json"@,
            None => false,
        },
{
    match accept {
        Some(a) => str_eq(a, "application/json"),
        None => false,
    }
}

/// Renders the resolved record per content negotiation.
pub fn render_record(rec: &ProfileRecord, id: &str, machine_readable: bool) -> (body: String)
    ensures
        machine_readable ==> body@ == profile_json(rec@),
        !machine_readable ==> body@ == html_page(rec@, id@),
{
    if machine_readable {
        json_profile_body(rec)
    } else {
        html_profile_body(rec, id)
    }
}

} // verus!
