//! The protocol codec: the wire envelope around operator text, and the
//! decoding of inbound frames into display text or diagnostics.

use vstd::prelude::*;
use crate::strutil::push_char;
use crate::json::{
    json_text_well_formed, json_from_str, value_as_object, map_get, value_as_str,
    value_debug_string, json_error_string,
};

verus! {

/// One character of operator text as it stands in the wire payload:
/// a double quote gains a leading backslash, every other character stands alone.
pub open spec fn escaped_char(c: char) -> Seq<char> {
    if c == '"' {
        seq!['\\', '"']
    } else {
        seq![c]
    }
}

/// The wire payload for operator text: every double quote escaped.
pub open spec fn escape_quotes_spec(s: Seq<char>) -> Seq<char>
    decreases s.len(),
{
    if s.len() == 0 {
        Seq::empty()
    } else {
        escape_quotes_spec(s.drop_last()) + escaped_char(s.last())
    }
}

/// Escapes every double quote in `s` with a backslash.
pub fn escape_quotes(s: &str) -> (r: String)
    ensures
        r@ == escape_quotes_spec(s@),
{
    let mut out = String::new();
    let n = s.unicode_len();
    let mut i: usize = 0;
    while i < n
        invariant
            i <= n,
            n == s@.len(),
            out@ == escape_quotes_spec(s@.take(i as int)),
        decreases n - i,
    {
        let c = s.get_char(i);
        if c == '"' {
            push_char(&mut out, '\\');
            push_char(&mut out, '"');
        } else {
            push_char(&mut out, c);
        }
        proof {
            let pre = s@.take(i as int);
            let cur = s@.take(i as int + 1);
            assert(cur.drop_last() =~= pre);
            assert(cur.last() == s@[i as int]);
            assert(out@ =~= escape_quotes_spec(pre) + escaped_char(s@[i as int]));
        }
        i += 1;
    }
    proof {
        assert(s@.take(n as int) =~= s@);
    }
    out
}

/// Every double quote in an escaped payload stands right after a backslash:
/// no quote of the operator's text reaches the wire unescaped.
pub proof fn lemma_escape_quotes_all_escaped(s: Seq<char>)
    ensures
        forall|k: int| 0 <= k < escape_quotes_spec(s).len()
            && #[trigger] escape_quotes_spec(s)[k] == '"'
            ==> k >= 1 && escape_quotes_spec(s)[k - 1] == '\\',
    decreases s.len(),
{
    if s.len() > 0 {
        let r0 = escape_quotes_spec(s.drop_last());
        let b = escaped_char(s.last());
        lemma_escape_quotes_all_escaped(s.drop_last());
        assert forall|k: int| 0 <= k < escape_quotes_spec(s).len()
            && #[trigger] escape_quotes_spec(s)[k] == '"'
            implies k >= 1 && escape_quotes_spec(s)[k - 1] == '\\' by {
            if k < r0.len() {
                assert(r0[k] == '"');
            } else {
                assert(b[k - r0.len()] == '"');
            }
        }
    }
}

/// Display text for a wire payload: scanning left to right, each
/// backslash-`n` pair becomes a line break; everything else is kept as it is.
pub open spec fn unescape_newlines_spec(s: Seq<char>) -> Seq<char>
    decreases s.len(),
{
    if s.len() == 0 {
        Seq::empty()
    } else if s.len() >= 2 && s[0] == '\\' && s[1] == 'n' {
        seq!['\n'] + unescape_newlines_spec(s.skip(2))
    } else {
        seq![s[0]] + unescape_newlines_spec(s.skip(1))
    }
}

/// Replaces each backslash-`n` escape in `s` with a real line break.
pub fn unescape_newlines(s: &str) -> (r: String)
    ensures
        r@ == unescape_newlines_spec(s@),
{
    let mut out = String::new();
    let n = s.unicode_len();
    let mut i: usize = 0;
    proof {
        assert(s@.skip(0) =~= s@);
        assert(out@ + unescape_newlines_spec(s@) =~= unescape_newlines_spec(s@));
    }
    while i < n
        invariant
            i <= n,
            n == s@.len(),
            unescape_newlines_spec(s@) == out@ + unescape_newlines_spec(s@.skip(i as int)),
        decreases n - i,
    {
        let ghost rest = s@.skip(i as int);
        let ghost prev = out@;
        let c = s.get_char(i);
        if c == '\\' && i + 1 < n && s.get_char(i + 1) == 'n' {
            push_char(&mut out, '\n');
            proof {
                assert(rest[0] == '\\' && rest[1] == 'n');
                assert(rest.skip(2) =~= s@.skip(i as int + 2));
                assert(unescape_newlines_spec(rest) == seq!['\n'] + unescape_newlines_spec(rest.skip(2)));
                assert(prev + unescape_newlines_spec(rest) =~= out@ + unescape_newlines_spec(s@.skip(i as int + 2)));
            }
            i += 2;
        } else {
            push_char(&mut out, c);
            proof {
                assert(rest[0] == c);
                assert(!(rest.len() >= 2 && rest[0] == '\\' && rest[1] == 'n'));
                assert(rest.skip(1) =~= s@.skip(i as int + 1));
                assert(unescape_newlines_spec(rest) == seq![c] + unescape_newlines_spec(rest.skip(1)));
                assert(prev + unescape_newlines_spec(rest) =~= out@ + unescape_newlines_spec(s@.skip(i as int + 1)));
            }
            i += 1;
        }
    }
    proof {
        assert(s@.skip(n as int) =~= Seq::<char>::empty());
    }
    out
}

/// A payload without backslashes is displayed exactly as it came: unescaping
/// substitutes line breaks and alters nothing else.
pub proof fn lemma_unescape_leaves_plain_text(s: Seq<char>)
    requires
        forall|k: int| 0 <= k < s.len() ==> s[k] != '\\',
    ensures
        unescape_newlines_spec(s) == s,
    decreases s.len(),
{
    if s.len() > 0 {
        assert(forall|k: int| 0 <= k < s.skip(1).len() ==> s.skip(1)[k] == s[k + 1]);
        lemma_unescape_leaves_plain_text(s.skip(1));
        assert(seq![s[0]] + s.skip(1) =~= s);
    }
}

/// The single-line wire envelope around the escaped payload: a fixed
/// identifier, the payload, and the fixed sender label.
pub open spec fn envelope_spec(text: Seq<char>) -> Seq<char> {
    "{\"Identifier\": 1, \"Message\": \""@ + escape_quotes_spec(text) + "\", \"Name\": \"WebRcon\" }"@
}

/// Encodes one operator line as a wire envelope.
pub fn encode_envelope(text: &str) -> (r: String)
    ensures
        r@ == envelope_spec(text@),
{
    let mut out = String::from_str("{\"Identifier\": 1, \"Message\": \"");
    let payload = escape_quotes(text);
    out.append(payload.as_str());
    out.append("\", \"Name\": \"WebRcon\" }");
    out
}

/// What inspecting an inbound frame's text found, as plain values.
pub enum FramePayload {
    /// The frame is an object with a string payload field: its raw contents.
    Payload(String),
    /// The frame is an object, but its payload field is missing or not a string.
    NoPayload,
    /// The frame parses, but its top level is not an object: a rendering of it.
    NotObject(String),
    /// The frame does not parse: the parser's diagnostic.
    Invalid(String),
}

/// The decode outcome of one inbound frame.
pub enum Decoded {
    /// Text to display, newline escapes already replaced by line breaks.
    DisplayText(String),
    /// The frame is an object without a usable payload field.
    MissingPayload,
    /// The frame parses but has an unrecognized top-level shape: a rendering of it.
    UnhandledShape(String),
    /// The frame is not well-formed: the parser's diagnostic.
    Malformed(String),
}

/// Parses an inbound frame's text and reads its payload field, reporting a
/// parse failure, a non-object top level, and a missing or wrong-typed
/// payload field each as its own case.
pub fn inspect_frame(text: &str) -> (p: FramePayload)
    ensures
        (p matches FramePayload::Invalid(_)) <==> !json_text_well_formed(text@),
{
    match json_from_str(text) {
        Err(e) => FramePayload::Invalid(json_error_string(&e)),
        Ok(v) => match value_as_object(&v) {
            None => FramePayload::NotObject(value_debug_string(&v)),
            Some(obj) => match map_get(obj, "Message") {
                None => FramePayload::NoPayload,
                Some(field) => match value_as_str(field) {
                    None => FramePayload::NoPayload,
                    Some(s) => FramePayload::Payload(String::from_str(s)),
                },
            },
        },
    }
}

/// Turns an inspected payload into the decode outcome: display text carries
/// the payload with newline escapes replaced, every other case carries its
/// diagnostic through unchanged.
pub fn decode_payload(p: FramePayload) -> (d: Decoded)
    ensures
        p matches FramePayload::Payload(s) ==> (d matches Decoded::DisplayText(t)
            && t@ == unescape_newlines_spec(s@)),
        p is NoPayload ==> d is MissingPayload,
        p matches FramePayload::NotObject(info) ==> (d matches Decoded::UnhandledShape(m)
            && m@ == info@),
        p matches FramePayload::Invalid(e) ==> (d matches Decoded::Malformed(m) && m@ == e@),
{
    match p {
        FramePayload::Payload(s) => Decoded::DisplayText(unescape_newlines(s.as_str())),
        FramePayload::NoPayload => Decoded::MissingPayload,
        FramePayload::NotObject(info) => Decoded::UnhandledShape(info),
        FramePayload::Invalid(e) => Decoded::Malformed(e),
    }
}

/// Decodes one inbound frame: a decode failure is reported exactly when the
/// text is not well-formed JSON, and display text is always the
/// newline-unescaping of some payload.
pub fn decode_frame(text: &str) -> (d: Decoded)
    ensures
        (d matches Decoded::Malformed(_)) <==> !json_text_well_formed(text@),
        d matches Decoded::DisplayText(t) ==> exists|raw: Seq<char>|
            t@ == #[trigger] unescape_newlines_spec(raw),
{
    let p = inspect_frame(text);
    let ghost gp = p;
    let d = decode_payload(p);
    proof {
        if let FramePayload::Payload(s) = gp {
            assert(d matches Decoded::DisplayText(t) && t@ == unescape_newlines_spec(s@));
        }
    }
    d
}

} // verus!
