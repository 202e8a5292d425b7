//! The stored form of scan and file statuses: JSON text in the layout that
//! serde uses for an externally tagged enum, so `"Completed"` for a unit
//! variant and `{"Failed":"disk full"}` for a variant that carries a
//! message. Reading accepts every layout of that enum that `serde_json`
//! accepts (whitespace between tokens, `{"Completed":null}` for a unit
//! variant, escaped names). String literals inside the text are quoted and
//! unquoted by `serde_json`.
use vstd::prelude::*;
use crate::models::{opt_text, FileStatus, FileStatusView, ScanStatus, ScanStatusView};
use crate::text::same_text;

verus! {

/// A lowercase hexadecimal digit.
pub open spec fn hex_digit(d: int) -> char {
    if d < 10 {
        (48 + d) as char
    } else {
        (87 + d) as char
    }
}

/// How `serde_json` writes one character inside a string literal: quote,
/// backslash and the control characters are escaped (the short forms
/// where JSON has them, `\u00XX` with lowercase hex otherwise); every
/// other character is written as it is.
pub open spec fn json_escape_char(c: char) -> Seq<char> {
    if c == '"' {
        seq!['\\', '"']
    } else if c == '\\' {
        seq!['\\', '\\']
    } else if c == '\u{8}' {
        seq!['\\', 'b']
    } else if c == '\t' {
        seq!['\\', 't']
    } else if c == '\n' {
        seq!['\\', 'n']
    } else if c == '\u{c}' {
        seq!['\\', 'f']
    } else if c == '\r' {
        seq!['\\', 'r']
    } else if (c as int) < 0x20 {
        seq!['\\', 'u', '0', '0', hex_digit((c as int) / 16), hex_digit((c as int) % 16)]
    } else {
        seq![c]
    }
}

/// The escaped contents of a string literal.
pub open spec fn json_escaped(s: Seq<char>) -> Seq<char>
    decreases s.len(),
{
    if s.len() == 0 {
        Seq::empty()
    } else {
        json_escape_char(s[0]) + json_escaped(s.drop_first())
    }
}

/// A string as a JSON string literal, as `serde_json::to_string` writes it.
pub open spec fn json_quoted(s: Seq<char>) -> Seq<char> {
    seq!['"'] + json_escaped(s) + seq!['"']
}

/// Names what `serde_json::from_str::<String>` returns for a text: the
/// string that the text denotes as a JSON string literal, if it is one.
pub uninterp spec fn json_unquoted(t: Seq<char>) -> Option<Seq<char>>;

/// Calls `serde_json::to_string` on a string. Trusted: the result is the
/// literal of [`json_quoted`] (`format_escaped_str` writes a quote, the
/// contents escaped by the `ESCAPE` table and `write_char_escape`, and a
/// quote), and `serde_json::from_str` reads it back as the same string.
/// Serializing a `str` does not fail.
#[verifier::external_body]
fn json_quote(s: &str) -> (r: String)
    ensures
        r@ == json_quoted(s@),
        json_unquoted(r@) == Some(s@),
{
    serde_json::to_string(s).unwrap_or_default()
}

/// Calls `serde_json::from_str::<String>`. Trusted: the result is the
/// string the text denotes, or nothing where the text is not a JSON
/// string literal; a function of the text alone.
#[verifier::external_body]
fn json_unquote(t: &str) -> (r: Option<String>)
    ensures
        match r {
            Some(v) => json_unquoted(t@) == Some(v@),
            None => json_unquoted(t@) is None,
        },
{
    serde_json::from_str::<String>(t).ok()
}

/// The text of a variant that carries a message:
/// `{` name-literal `:` message-literal `}`.
pub open spec fn tagged_text(name: Seq<char>, payload: Seq<char>) -> Seq<char> {
    seq!['{'] + json_quoted(name) + seq![':'] + json_quoted(payload) + seq!['}']
}

/// JSON whitespace: space, tab, line feed and carriage return.
pub open spec fn is_json_ws(c: char) -> bool {
    c == ' ' || c == '\t' || c == '\n' || c == '\r'
}

/// The first position at or after `i` that holds no JSON whitespace.
pub open spec fn skip_ws(t: Seq<char>, i: int) -> int
    decreases t.len() - i,
{
    if 0 <= i < t.len() && is_json_ws(t[i]) {
        skip_ws(t, i + 1)
    } else {
        i
    }
}

/// Inside a string literal, from position `i`: the position just after
/// the closing quote, passing over each backslash and the character it
/// escapes.
pub open spec fn literal_end(t: Seq<char>, i: int) -> Option<int>
    decreases t.len() - i,
{
    if i < 0 || i >= t.len() {
        None
    } else if t[i] == '"' {
        Some(i + 1)
    } else if t[i] == '\\' {
        if i + 2 <= t.len() {
            literal_end(t, i + 2)
        } else {
            None
        }
    } else {
        literal_end(t, i + 1)
    }
}

/// Where a string literal that opens at `i` ends (just after its closing
/// quote).
pub open spec fn literal_at(t: Seq<char>, i: int) -> Option<int> {
    if 0 <= i < t.len() && t[i] == '"' {
        literal_end(t, i + 1)
    } else {
        None
    }
}

/// The value of a one-entry object: the text of a string literal, or
/// `None` for `null`; and where it ends.
pub open spec fn object_value(t: Seq<char>, v0: int) -> Option<(Option<Seq<char>>, int)> {
    if 0 <= v0 && v0 + 4 <= t.len() && t.subrange(v0, v0 + 4) == seq!['n', 'u', 'l', 'l'] {
        Some((None, v0 + 4))
    } else {
        match literal_at(t, v0) {
            Some(v1) => Some((Some(t.subrange(v0, v1)), v1)),
            None => None,
        }
    }
}

/// The parts of a text laid out as a one-entry JSON object,
/// `{ "key" : value }` with whitespace allowed between the tokens and
/// around the object: the key's literal text and the value (see
/// [`object_value`]).
pub open spec fn object_parts(t: Seq<char>) -> Option<(Seq<char>, Option<Seq<char>>)> {
    let o = skip_ws(t, 0);
    if !(0 <= o < t.len() && t[o] == '{') {
        None
    } else {
        let k0 = skip_ws(t, o + 1);
        match literal_at(t, k0) {
            None => None,
            Some(k1) => {
                let c = skip_ws(t, k1);
                if !(0 <= c < t.len() && t[c] == ':') {
                    None
                } else {
                    match object_value(t, skip_ws(t, c + 1)) {
                        None => None,
                        Some((v, v1)) => {
                            let e = skip_ws(t, v1);
                            if 0 <= e < t.len() && t[e] == '}' && skip_ws(t, e + 1) == t.len() {
                                Some((t.subrange(k0, k1), v))
                            } else {
                                None
                            }
                        },
                    }
                }
            },
        }
    }
}

/// The variant a one-entry object names, and its message, or `None` for a
/// `null` value: key and value literals read as `serde_json` reads them.
pub open spec fn object_variant(t: Seq<char>) -> Option<(Seq<char>, Option<Seq<char>>)> {
    match object_parts(t) {
        Some((k, v)) => match json_unquoted(k) {
            Some(name) => match v {
                None => Some((name, None)),
                Some(vt) => match json_unquoted(vt) {
                    Some(m) => Some((name, Some(m))),
                    None => None,
                },
            },
            None => None,
        },
        None => None,
    }
}

/// Whether a stored text is an object (its first character that is not
/// whitespace is `{`) rather than a bare string literal.
pub open spec fn is_object_text(t: Seq<char>) -> bool {
    let o = skip_ws(t, 0);
    0 <= o < t.len() && t[o] == '{'
}

/// The stored text of a scan status.
pub open spec fn scan_status_text(s: ScanStatusView) -> Seq<char> {
    match s {
        ScanStatusView::InProgress => json_quoted("InProgress"@),
        ScanStatusView::Completed => json_quoted("Completed"@),
        ScanStatusView::Failed(m) => tagged_text("Failed"@, m),
    }
}

/// The scan status a stored text denotes, if any.
pub open spec fn scan_status_of_text(t: Seq<char>) -> Option<ScanStatusView> {
    if is_object_text(t) {
        match object_variant(t) {
            Some((name, Some(m))) => if name == "Failed"@ {
                Some(ScanStatusView::Failed(m))
            } else {
                None
            },
            Some((name, None)) => if name == "InProgress"@ {
                Some(ScanStatusView::InProgress)
            } else if name == "Completed"@ {
                Some(ScanStatusView::Completed)
            } else {
                None
            },
            None => None,
        }
    } else {
        match json_unquoted(t) {
            Some(name) => if name == "InProgress"@ {
                Some(ScanStatusView::InProgress)
            } else if name == "Completed"@ {
                Some(ScanStatusView::Completed)
            } else {
                None
            },
            None => None,
        }
    }
}

/// The stored text of a file status.
pub open spec fn file_status_text(s: FileStatusView) -> Seq<char> {
    match s {
        FileStatusView::Scanned => json_quoted("Scanned"@),
        FileStatusView::Cleaned => json_quoted("Cleaned"@),
        FileStatusView::Error(m) => tagged_text("Error"@, m),
        FileStatusView::Skipped => json_quoted("Skipped"@),
    }
}

/// The file status a stored text denotes, if any.
pub open spec fn file_status_of_text(t: Seq<char>) -> Option<FileStatusView> {
    if is_object_text(t) {
        match object_variant(t) {
            Some((name, Some(m))) => if name == "Error"@ {
                Some(FileStatusView::Error(m))
            } else {
                None
            },
            Some((name, None)) => if name == "Scanned"@ {
                Some(FileStatusView::Scanned)
            } else if name == "Cleaned"@ {
                Some(FileStatusView::Cleaned)
            } else if name == "Skipped"@ {
                Some(FileStatusView::Skipped)
            } else {
                None
            },
            None => None,
        }
    } else {
        match json_unquoted(t) {
            Some(name) => if name == "Scanned"@ {
                Some(FileStatusView::Scanned)
            } else if name == "Cleaned"@ {
                Some(FileStatusView::Cleaned)
            } else if name == "Skipped"@ {
                Some(FileStatusView::Skipped)
            } else {
                None
            },
            None => None,
        }
    }
}

proof fn hex_digit_is_plain(d: int)
    requires
        0 <= d < 16,
    ensures
        hex_digit(d) != '"',
        hex_digit(d) != '\\',
{
}

/// Passing over the escaped form of one character leaves the end of the
/// literal where it was.
proof fn literal_end_over_char(t: Seq<char>, p: int, c: char)
    requires
        0 <= p,
        p + json_escape_char(c).len() < t.len(),
        forall|k: int| 0 <= k < json_escape_char(c).len() ==> t[p + k] == json_escape_char(c)[k],
    ensures
        literal_end(t, p) == literal_end(t, p + json_escape_char(c).len()),
{
    let piece = json_escape_char(c);
    assert(t[p] == piece[0]);
    if piece.len() == 1 {
        assert(piece == seq![c]);
    } else if piece.len() == 6 {
        let hi = (c as int) / 16;
        let lo = (c as int) % 16;
        hex_digit_is_plain(hi);
        hex_digit_is_plain(lo);
        assert(t[p + 2] == piece[2]);
        assert(t[p + 3] == piece[3]);
        assert(t[p + 4] == piece[4]);
        assert(t[p + 5] == piece[5]);
        assert(literal_end(t, p + 5) == literal_end(t, p + 6));
        assert(literal_end(t, p + 4) == literal_end(t, p + 5));
        assert(literal_end(t, p + 3) == literal_end(t, p + 4));
        assert(literal_end(t, p + 2) == literal_end(t, p + 3));
    }
}

/// A quoted string's literal ends right after its closing quote.
proof fn literal_end_of_escaped(t: Seq<char>, p: int, s: Seq<char>)
    requires
        0 <= p,
        p + json_escaped(s).len() < t.len(),
        t.subrange(p, p + json_escaped(s).len()) == json_escaped(s),
        t[p + json_escaped(s).len()] == '"',
    ensures
        literal_end(t, p) == Some(p + json_escaped(s).len() + 1),
    decreases s.len(),
{
    if s.len() > 0 {
        let piece = json_escape_char(s[0]);
        let rest = json_escaped(s.drop_first());
        let all = json_escaped(s);
        assert(all == piece + rest);
        let q = p + piece.len();
        assert forall|k: int| 0 <= k < piece.len() implies t[p + k] == piece[k] by {
            assert(t.subrange(p, p + all.len())[k] == t[p + k]);
            assert(all[k] == piece[k]);
        }
        assert forall|k: int| 0 <= k < rest.len() implies t.subrange(q, q + rest.len())[k]
            == rest[k] by {
            assert(t.subrange(p, p + all.len())[piece.len() + k] == t[q + k]);
            assert(all[piece.len() + k] == rest[k]);
        }
        assert(t.subrange(q, q + rest.len()) =~= rest);
        literal_end_of_escaped(t, q, s.drop_first());
        literal_end_over_char(t, p, s[0]);
    }
}

/// The tagged text of `name` and `payload` reads back as that variant and
/// message, where the two literals unquote to them.
proof fn tagged_text_reads_back(name: Seq<char>, payload: Seq<char>)
    requires
        json_unquoted(json_quoted(name)) == Some(name),
        json_unquoted(json_quoted(payload)) == Some(payload),
    ensures
        is_object_text(tagged_text(name, payload)),
        object_variant(tagged_text(name, payload)) == Some((name, Some(payload))),
{
    let t = tagged_text(name, payload);
    let qn = json_quoted(name);
    let qp = json_quoted(payload);
    let en = json_escaped(name);
    let ep = json_escaped(payload);
    assert(t =~= seq!['{'] + qn + seq![':'] + qp + seq!['}']);
    let ln: int = en.len() as int;
    let lp: int = ep.len() as int;
    let k1: int = 1 + qn.len() as int;
    let v0: int = k1 + 1;
    let v1: int = v0 + qp.len() as int;
    assert(t.len() == v1 + 1);
    assert(t[0] == '{');
    assert(skip_ws(t, 0) == 0);
    assert(t[1] == '"');
    assert(skip_ws(t, 1) == 1);
    assert(t.subrange(2, 2 + ln) =~= en) by {
        assert forall|k: int| 0 <= k < en.len() implies t.subrange(2, 2 + ln)[k] == en[k] by {
            assert(t[2 + k] == qn[1 + k]);
        }
    }
    assert(t[2 + ln] == qn[1 + ln]);
    literal_end_of_escaped(t, 2, name);
    assert(literal_at(t, 1) == Some(k1));
    assert(t.subrange(1, k1) =~= qn);
    assert(t[k1] == ':');
    assert(skip_ws(t, k1) == k1);
    assert(t[v0] == '"');
    assert(skip_ws(t, v0) == v0);
    if v0 + 4 <= t.len() {
        assert(t.subrange(v0, v0 + 4)[0] == t[v0]);
    }
    assert(t.subrange(v0 + 1, v0 + 1 + lp) =~= ep) by {
        assert forall|k: int| 0 <= k < ep.len() implies t.subrange(v0 + 1, v0 + 1 + lp)[k]
            == ep[k] by {
            assert(t[v0 + 1 + k] == qp[1 + k]);
        }
    }
    assert(t[v0 + 1 + lp] == qp[1 + lp]);
    literal_end_of_escaped(t, v0 + 1, payload);
    assert(literal_at(t, v0) == Some(v1));
    assert(t.subrange(v0, v1) =~= qp);
    assert(object_value(t, v0) == Some((Some(qp), v1)));
    assert(t[v1] == '}');
    assert(skip_ws(t, v1) == v1);
    assert(skip_ws(t, v1 + 1) == t.len());
    assert(object_parts(t) == Some((qn, Some(qp))));
}

/// Builds the tagged text of a variant that carries a message.
fn tagged(name: &str, payload: &str) -> (t: String)
    ensures
        t@ == tagged_text(name@, payload@),
        is_object_text(t@),
        object_variant(t@) == Some((name@, Some(payload@))),
{
    proof {
        reveal_strlit("{");
        reveal_strlit(":");
        reveal_strlit("}");
    }
    let mut t = String::from_str("{");
    let qn = json_quote(name);
    t.append(qn.as_str());
    t.append(":");
    let qp = json_quote(payload);
    t.append(qp.as_str());
    t.append("}");
    proof {
        assert(t@ =~= tagged_text(name@, payload@));
        tagged_text_reads_back(name@, payload@);
    }
    t
}

/// The first position at or after `i` that holds no JSON whitespace.
fn skip_ws_from(t: &str, n: usize, i: usize) -> (r: usize)
    requires
        n == t@.len(),
        i <= n,
    ensures
        r == skip_ws(t@, i as int),
        i <= r <= n,
{
    let mut j = i;
    while j < n && (t.get_char(j) == ' ' || t.get_char(j) == '\t' || t.get_char(j) == '\n'
        || t.get_char(j) == '\r')
        invariant
            n == t@.len(),
            i <= j <= n,
            skip_ws(t@, i as int) == skip_ws(t@, j as int),
        decreases n - j,
    {
        j = j + 1;
    }
    j
}

/// Where the string literal whose contents start at `i` ends.
fn literal_end_from(t: &str, n: usize, i: usize) -> (r: Option<usize>)
    requires
        n == t@.len(),
        i <= n,
    ensures
        match r {
            Some(e) => literal_end(t@, i as int) == Some(e as int) && i < e <= n,
            None => literal_end(t@, i as int) is None,
        },
{
    let mut j = i;
    while j < n
        invariant
            n == t@.len(),
            i <= j <= n,
            literal_end(t@, i as int) == literal_end(t@, j as int),
        decreases n - j,
    {
        let c = t.get_char(j);
        if c == '"' {
            return Some(j + 1);
        } else if c == '\\' {
            if j + 1 < n {
                j = j + 2;
            } else {
                return None;
            }
        } else {
            j = j + 1;
        }
    }
    None
}

/// Reads a one-entry object: the variant it names and its message, or no
/// message for `null`.
fn object_variant_of(t: &str) -> (r: Option<(String, Option<String>)>)
    ensures
        match r {
            Some((name, m)) => object_variant(t@) == Some((name@, opt_text(m))),
            None => object_variant(t@) is None,
        },
{
    let n = t.unicode_len();
    let o = skip_ws_from(t, n, 0);
    if o >= n || t.get_char(o) != '{' {
        return None;
    }
    let k0 = skip_ws_from(t, n, o + 1);
    if k0 >= n || t.get_char(k0) != '"' {
        return None;
    }
    let k1 = match literal_end_from(t, n, k0 + 1) {
        Some(e) => e,
        None => {
            return None;
        },
    };
    let c = skip_ws_from(t, n, k1);
    if c >= n || t.get_char(c) != ':' {
        return None;
    }
    let v0 = skip_ws_from(t, n, c + 1);
    let is_null = v0 < n && n - v0 >= 4 && t.get_char(v0) == 'n' && t.get_char(v0 + 1) == 'u'
        && t.get_char(v0 + 2) == 'l' && t.get_char(v0 + 3) == 'l';
    proof {
        if v0 + 4 <= n {
            let sub = t@.subrange(v0 as int, v0 + 4);
            assert(sub[0] == t@[v0 as int]);
            assert(sub[1] == t@[v0 + 1]);
            assert(sub[2] == t@[v0 + 2]);
            assert(sub[3] == t@[v0 + 3]);
            if is_null {
                assert(sub =~= seq!['n', 'u', 'l', 'l']);
            }
        }
    }
    let (value, v1): (Option<&str>, usize) = if is_null {
        (None, v0 + 4)
    } else {
        if v0 >= n || t.get_char(v0) != '"' {
            return None;
        }
        match literal_end_from(t, n, v0 + 1) {
            Some(e) => (Some(t.substring_char(v0, e)), e),
            None => {
                return None;
            },
        }
    };
    let e = skip_ws_from(t, n, v1);
    if e >= n || t.get_char(e) != '}' {
        return None;
    }
    if skip_ws_from(t, n, e + 1) != n {
        return None;
    }
    let name = match json_unquote(t.substring_char(k0, k1)) {
        Some(name) => name,
        None => {
            return None;
        },
    };
    match value {
        None => Some((name, None)),
        Some(vt) => match json_unquote(vt) {
            Some(m) => Some((name, Some(m))),
            None => None,
        },
    }
}

/// Whether the stored text is an object.
fn is_object(t: &str) -> (r: bool)
    ensures
        r == is_object_text(t@),
{
    let n = t.unicode_len();
    let o = skip_ws_from(t, n, 0);
    o < n && t.get_char(o) == '{'
}

impl ScanStatus {
    /// The stored text of this status. Reading it back with
    /// [`ScanStatus::from_json`] gives this status again.
    pub fn to_json(&self) -> (t: String)
        ensures
            t@ == scan_status_text(self@),
            scan_status_of_text(t@) == Some(self@),
    {
        proof {
            reveal_strlit("InProgress");
            reveal_strlit("Completed");
            reveal_strlit("Failed");
        }
        match self {
            ScanStatus::InProgress => {
                let t = json_quote("InProgress");
                assert(!is_object_text(t@));
                t
            },
            ScanStatus::Completed => {
                let t = json_quote("Completed");
                assert(!is_object_text(t@));
                assert("Completed"@.len() != "InProgress"@.len());
                t
            },
            ScanStatus::Failed(m) => tagged("Failed", m.as_str()),
        }
    }

    /// The status a stored text denotes; `None` where it denotes none. The
    /// text is read as `serde_json` reads an externally tagged enum: a
    /// bare name literal, or a one-entry object whose key names the
    /// variant and whose value is the message literal (or `null` for a
    /// variant without one), with JSON whitespace allowed between the
    /// tokens and escapes allowed in both literals.
    pub fn from_json(t: &str) -> (r: Option<ScanStatus>)
        ensures
            match r {
                Some(s) => scan_status_of_text(t@) == Some(s@),
                None => scan_status_of_text(t@) is None,
            },
    {
        if is_object(t) {
            match object_variant_of(t) {
                Some((name, Some(m))) => {
                    if same_text(name.as_str(), "Failed") {
                        Some(ScanStatus::Failed(m))
                    } else {
                        None
                    }
                },
                Some((name, None)) => {
                    if same_text(name.as_str(), "InProgress") {
                        Some(ScanStatus::InProgress)
                    } else if same_text(name.as_str(), "Completed") {
                        Some(ScanStatus::Completed)
                    } else {
                        None
                    }
                },
                None => None,
            }
        } else {
            match json_unquote(t) {
                Some(name) => {
                    if same_text(name.as_str(), "InProgress") {
                        Some(ScanStatus::InProgress)
                    } else if same_text(name.as_str(), "Completed") {
                        Some(ScanStatus::Completed)
                    } else {
                        None
                    }
                },
                None => None,
            }
        }
    }
}

impl FileStatus {
    /// The stored text of this status. Reading it back with
    /// [`FileStatus::from_json`] gives this status again.
    pub fn to_json(&self) -> (t: String)
        ensures
            t@ == file_status_text(self@),
            file_status_of_text(t@) == Some(self@),
    {
        proof {
            reveal_strlit("Scanned");
            reveal_strlit("Cleaned");
            reveal_strlit("Error");
            reveal_strlit("Skipped");
        }
        match self {
            FileStatus::Scanned => {
                let t = json_quote("Scanned");
                assert(!is_object_text(t@));
                t
            },
            FileStatus::Cleaned => {
                let t = json_quote("Cleaned");
                assert(!is_object_text(t@));
                assert("Cleaned"@[0] != "Scanned"@[0]);
                t
            },
            FileStatus::Error(m) => tagged("Error", m.as_str()),
            FileStatus::Skipped => {
                let t = json_quote("Skipped");
                assert(!is_object_text(t@));
                assert("Skipped"@[1] != "Scanned"@[1]);
                assert("Skipped"@[0] != "Cleaned"@[0]);
                t
            },
        }
    }

    /// The status a stored text denotes; `None` where it denotes none. The
    /// text is read as `serde_json` reads an externally tagged enum: a
    /// bare name literal, or a one-entry object whose key names the
    /// variant and whose value is the message literal (or `null` for a
    /// variant without one), with JSON whitespace allowed between the
    /// tokens and escapes allowed in both literals.
    pub fn from_json(t: &str) -> (r: Option<FileStatus>)
        ensures
            match r {
                Some(s) => file_status_of_text(t@) == Some(s@),
                None => file_status_of_text(t@) is None,
            },
    {
        if is_object(t) {
            match object_variant_of(t) {
                Some((name, Some(m))) => {
                    if same_text(name.as_str(), "Error") {
                        Some(FileStatus::Error(m))
                    } else {
                        None
                    }
                },
                Some((name, None)) => {
                    if same_text(name.as_str(), "Scanned") {
                        Some(FileStatus::Scanned)
                    } else if same_text(name.as_str(), "Cleaned") {
                        Some(FileStatus::Cleaned)
                    } else if same_text(name.as_str(), "Skipped") {
                        Some(FileStatus::Skipped)
                    } else {
                        None
                    }
                },
                None => None,
            }
        } else {
            match json_unquote(t) {
                Some(name) => {
                    if same_text(name.as_str(), "Scanned") {
                        Some(FileStatus::Scanned)
                    } else if same_text(name.as_str(), "Cleaned") {
                        Some(FileStatus::Cleaned)
                    } else if same_text(name.as_str(), "Skipped") {
                        Some(FileStatus::Skipped)
                    } else {
                        None
                    }
                },
                None => None,
            }
        }
    }
}

} // verus!
