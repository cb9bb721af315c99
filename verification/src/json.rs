//! The wire text of the gateway, produced and consumed by verified code: a
//! serializer for the frames the server sends, and a parser for the one JSON
//! object shape a client may send (string keys and string values). Both sides
//! are specified exactly over character sequences.

use vstd::prelude::*;
use vstd::string::StrSliceExecFns;
use vstd::string::StringExecFns;

use crate::model::Operation;
use crate::model::ResourceTargetVariant;
use crate::model::UpdateListItem;
use crate::model::UpdateListItemView;
use crate::model::UpdateStatus;

verus! {

/// Relies on String::push: appends exactly the one character.
#[verifier::external_body]
fn push_char(s: &mut String, c: char)
    ensures
        final(s)@ == old(s)@.push(c),
{
    s.push(c);
}

/// The decimal digit character for `d`.
pub open spec fn digit_char(d: nat) -> char {
    if d == 0 {
        '0'
    } else if d == 1 {
        '1'
    } else if d == 2 {
        '2'
    } else if d == 3 {
        '3'
    } else if d == 4 {
        '4'
    } else if d == 5 {
        '5'
    } else if d == 6 {
        '6'
    } else if d == 7 {
        '7'
    } else if d == 8 {
        '8'
    } else {
        '9'
    }
}

/// The decimal digits of `n`, most significant first, no leading zeros
/// (a single `'0'` for zero).
pub open spec fn dec_digits(n: nat) -> Seq<char>
    decreases n,
{
    if n < 10 {
        seq![digit_char(n)]
    } else {
        dec_digits(n / 10).push(digit_char(n % 10))
    }
}

/// The decimal text of a signed value: a `'-'` before the magnitude.
pub open spec fn dec_digits_i64(n: int) -> Seq<char> {
    if n < 0 {
        seq!['-'] + dec_digits((-n) as nat)
    } else {
        dec_digits(n as nat)
    }
}

fn digit_char_exec(d: u64) -> (c: char)
    requires
        d < 10,
    ensures
        c == digit_char(d as nat),
{
    if d == 0 {
        '0'
    } else if d == 1 {
        '1'
    } else if d == 2 {
        '2'
    } else if d == 3 {
        '3'
    } else if d == 4 {
        '4'
    } else if d == 5 {
        '5'
    } else if d == 6 {
        '6'
    } else if d == 7 {
        '7'
    } else if d == 8 {
        '8'
    } else {
        '9'
    }
}

/// Appends the decimal text of `n`.
fn push_u64(out: &mut String, n: u64)
    ensures
        final(out)@ == old(out)@ + dec_digits(n as nat),
    decreases n,
{
    if n < 10 {
        push_char(out, digit_char_exec(n));
        proof {
            assert(final(out)@ =~= old(out)@ + dec_digits(n as nat));
        }
    } else {
        push_u64(out, n / 10);
        push_char(out, digit_char_exec(n % 10));
        proof {
            assert(final(out)@ =~= old(out)@ + dec_digits(n as nat));
        }
    }
}

/// Appends the decimal text of a signed value.
fn push_i64(out: &mut String, n: i64)
    ensures
        final(out)@ == old(out)@ + dec_digits_i64(n as int),
{
    if n < 0 {
        push_char(out, '-');
        let magnitude: u64 = if n == i64::MIN {
            9223372036854775808u64
        } else {
            (-n) as u64
        };
        proof {
            assert(magnitude as nat == (-(n as int)) as nat);
        }
        push_u64(out, magnitude);
        proof {
            assert(final(out)@ =~= old(out)@ + dec_digits_i64(n as int));
        }
    } else {
        push_u64(out, n as u64);
    }
}

/// The hexadecimal digit character for `d`.
pub open spec fn hex_char(d: nat) -> char {
    if d < 10 {
        digit_char(d)
    } else if d == 10 {
        'a'
    } else if d == 11 {
        'b'
    } else if d == 12 {
        'c'
    } else if d == 13 {
        'd'
    } else if d == 14 {
        'e'
    } else {
        'f'
    }
}

/// How one character appears inside a JSON string: quotes, backslashes and
/// the common control characters get two-character escapes, the remaining
/// control characters a `\u00..` escape, everything else stands as itself.
pub open spec fn escape_char(c: char) -> Seq<char> {
    if c == '"' {
        seq!['\\', '"']
    } else if c == '\\' {
        seq!['\\', '\\']
    } else if c == '\n' {
        seq!['\\', 'n']
    } else if c == '\r' {
        seq!['\\', 'r']
    } else if c == '\t' {
        seq!['\\', 't']
    } else if (c as u32) < 32 {
        seq!['\\', 'u', '0', '0', hex_char((c as u32 / 16) as nat), hex_char(
            (c as u32 % 16) as nat,
        )]
    } else {
        seq![c]
    }
}

/// The escaped form of a whole string.
pub open spec fn escape_seq(s: Seq<char>) -> Seq<char>
    decreases s.len(),
{
    if s.len() == 0 {
        Seq::empty()
    } else {
        escape_seq(s.drop_last()) + escape_char(s.last())
    }
}

fn push_escaped_char(out: &mut String, c: char)
    ensures
        final(out)@ == old(out)@ + escape_char(c),
{
    let x = c as u32;
    if c == '"' {
        out.append("\\\"");
    } else if c == '\\' {
        out.append("\\\\");
    } else if c == '\n' {
        out.append("\\n");
    } else if c == '\r' {
        out.append("\\r");
    } else if c == '\t' {
        out.append("\\t");
    } else if x < 32 {
        out.append("\\u00");
        let hi = x / 16;
        let lo = x % 16;
        let hc = if hi < 10 {
            digit_char_exec(hi as u64)
        } else {
            'a'
        };
        push_char(out, hc);
        let lc = if lo < 10 {
            digit_char_exec(lo as u64)
        } else if lo == 10 {
            'a'
        } else if lo == 11 {
            'b'
        } else if lo == 12 {
            'c'
        } else if lo == 13 {
            'd'
        } else if lo == 14 {
            'e'
        } else {
            'f'
        };
        push_char(out, lc);
        proof {
            reveal_strlit("\\u00");
            assert(final(out)@ =~= old(out)@ + escape_char(c));
        }
    } else {
        push_char(out, c);
        proof {
            assert(final(out)@ =~= old(out)@ + escape_char(c));
        }
    }
    proof {
        reveal_strlit("\\\"");
        reveal_strlit("\\\\");
        reveal_strlit("\\n");
        reveal_strlit("\\r");
        reveal_strlit("\\t");
        assert(final(out)@ =~= old(out)@ + escape_char(c));
    }
}

/// Appends the escaped form of `s`.
fn push_escaped(out: &mut String, s: &str)
    ensures
        final(out)@ == old(out)@ + escape_seq(s@),
{
    let n = s.unicode_len();
    let mut k: usize = 0;
    while k < n
        invariant
            n == s@.len(),
            k <= n,
            out@ == old(out)@ + escape_seq(s@.subrange(0, k as int)),
        decreases n - k,
    {
        let c = s.get_char(k);
        push_escaped_char(out, c);
        proof {
            let prefix = s@.subrange(0, k as int + 1);
            assert(prefix.drop_last() =~= s@.subrange(0, k as int));
            assert(prefix.last() == s@[k as int]);
            assert(out@ =~= old(out)@ + escape_seq(prefix));
        }
        k += 1;
    }
    proof {
        assert(s@.subrange(0, s@.len() as int) =~= s@);
    }
}

/// The wire name of an operation kind.
pub open spec fn operation_name(op: Operation) -> Seq<char> {
    match op {
        Operation::CreateServer => "CreateServer"@,
        Operation::UpdateServer => "UpdateServer"@,
        Operation::CreateDeployment => "CreateDeployment"@,
        Operation::Deploy => "Deploy"@,
        Operation::StartContainer => "StartContainer"@,
        Operation::StopContainer => "StopContainer"@,
        Operation::CreateBuild => "CreateBuild"@,
        Operation::RunBuild => "RunBuild"@,
    }
}

fn push_operation(out: &mut String, op: Operation)
    ensures
        final(out)@ == old(out)@ + operation_name(op),
{
    match op {
        Operation::CreateServer => out.append("CreateServer"),
        Operation::UpdateServer => out.append("UpdateServer"),
        Operation::CreateDeployment => out.append("CreateDeployment"),
        Operation::Deploy => out.append("Deploy"),
        Operation::StartContainer => out.append("StartContainer"),
        Operation::StopContainer => out.append("StopContainer"),
        Operation::CreateBuild => out.append("CreateBuild"),
        Operation::RunBuild => out.append("RunBuild"),
    }
}

/// The wire name of an update status.
pub open spec fn status_name(s: UpdateStatus) -> Seq<char> {
    match s {
        UpdateStatus::Queued => "Queued"@,
        UpdateStatus::InProgress => "InProgress"@,
        UpdateStatus::Complete => "Complete"@,
    }
}

fn push_status(out: &mut String, s: UpdateStatus)
    ensures
        final(out)@ == old(out)@ + status_name(s),
{
    match s {
        UpdateStatus::Queued => out.append("Queued"),
        UpdateStatus::InProgress => out.append("InProgress"),
        UpdateStatus::Complete => out.append("Complete"),
    }
}

/// The wire name of a resource target variant.
pub open spec fn variant_name(v: ResourceTargetVariant) -> Seq<char> {
    match v {
        ResourceTargetVariant::System => "System"@,
        ResourceTargetVariant::Server => "Server"@,
        ResourceTargetVariant::Deployment => "Deployment"@,
        ResourceTargetVariant::Build => "Build"@,
        ResourceTargetVariant::Repo => "Repo"@,
        ResourceTargetVariant::Procedure => "Procedure"@,
        ResourceTargetVariant::UserGroup => "UserGroup"@,
        ResourceTargetVariant::User => "User"@,
    }
}

fn push_variant(out: &mut String, v: ResourceTargetVariant)
    ensures
        final(out)@ == old(out)@ + variant_name(v),
{
    match v {
        ResourceTargetVariant::System => out.append("System"),
        ResourceTargetVariant::Server => out.append("Server"),
        ResourceTargetVariant::Deployment => out.append("Deployment"),
        ResourceTargetVariant::Build => out.append("Build"),
        ResourceTargetVariant::Repo => out.append("Repo"),
        ResourceTargetVariant::Procedure => out.append("Procedure"),
        ResourceTargetVariant::UserGroup => out.append("UserGroup"),
        ResourceTargetVariant::User => out.append("User"),
    }
}

/// The JSON text of a bool.
pub open spec fn bool_name(b: bool) -> Seq<char> {
    if b {
        "true"@
    } else {
        "false"@
    }
}

/// The one steady-state frame the server sends: the JSON text of an update
/// list item.
pub open spec fn serialize_item(u: UpdateListItemView) -> Seq<char> {
    "{\"id\":"@ + dec_digits(u.id as nat) + ",\"operation\":\""@ + operation_name(u.operation)
        + "\",\"start_ts\":"@ + dec_digits_i64(u.start_ts as int) + ",\"success\":"@ + bool_name(
        u.success,
    ) + ",\"operator\":\""@ + escape_seq(u.operator) + "\",\"target\":{\"type\":\""@ + variant_name(
        u.target.variant,
    ) + "\",\"id\":\""@ + escape_seq(u.target.id) + "\"},\"status\":\""@ + status_name(u.status)
        + "\",\"version\":\""@ + dec_digits(u.version.major as nat) + "."@ + dec_digits(
        u.version.minor as nat,
    ) + "."@ + dec_digits(u.version.patch as nat) + "\",\"username\":\""@ + escape_seq(u.username)
        + "\"}"@
}

/// Serializes an update list item for the wire.
pub fn serialize_update_list_item(u: &UpdateListItem) -> (r: String)
    ensures
        r@ == serialize_item(u@),
{
    let mut out = String::new();
    out.append("{\"id\":");
    push_u64(&mut out, u.id);
    out.append(",\"operation\":\"");
    push_operation(&mut out, u.operation);
    out.append("\",\"start_ts\":");
    push_i64(&mut out, u.start_ts);
    out.append(",\"success\":");
    if u.success {
        out.append("true");
    } else {
        out.append("false");
    }
    out.append(",\"operator\":\"");
    push_escaped(&mut out, u.operator.as_str());
    out.append("\",\"target\":{\"type\":\"");
    push_variant(&mut out, u.target.variant);
    out.append("\",\"id\":\"");
    push_escaped(&mut out, u.target.id.as_str());
    out.append("\"},\"status\":\"");
    push_status(&mut out, u.status);
    out.append("\",\"version\":\"");
    push_u64(&mut out, u.version.major);
    out.append(".");
    push_u64(&mut out, u.version.minor);
    out.append(".");
    push_u64(&mut out, u.version.patch);
    out.append("\",\"username\":\"");
    push_escaped(&mut out, u.username.as_str());
    out.append("\"}");
    proof {
        assert(out@ =~= serialize_item(u@));
    }
    out
}

/// The structured frame for a mid-stream identity failure.
pub open spec fn invalid_user_frame_spec(msg: Seq<char>) -> Seq<char> {
    "{\"type\":\"INVALID_USER\",\"msg\":\""@ + escape_seq(msg) + "\"}"@
}

/// Builds the `INVALID_USER` frame carrying the error text.
pub fn invalid_user_frame(msg: &str) -> (r: String)
    ensures
        r@ == invalid_user_frame_spec(msg@),
{
    let mut out = String::new();
    out.append("{\"type\":\"INVALID_USER\",\"msg\":\"");
    push_escaped(&mut out, msg);
    out.append("\"}");
    proof {
        assert(out@ =~= invalid_user_frame_spec(msg@));
    }
    out
}

/// One key/value pair of a parsed object.
pub struct StrPair {
    pub key: String,
    pub value: String,
}

#[verifier::ext_equal]
pub ghost struct StrPairView {
    pub key: Seq<char>,
    pub value: Seq<char>,
}

impl View for StrPair {
    type V = StrPairView;

    open spec fn view(&self) -> StrPairView {
        StrPairView { key: self.key@, value: self.value@ }
    }
}

impl DeepView for StrPair {
    type V = StrPairView;

    open spec fn deep_view(&self) -> StrPairView {
        self.view()
    }
}

/// JSON whitespace.
pub open spec fn is_ws_char(c: char) -> bool {
    c == ' ' || c == '\n' || c == '\t' || c == '\r'
}

/// First position at or after `i` holding a non-whitespace character.
pub open spec fn skip_ws(s: Seq<char>, i: nat) -> nat
    decreases s.len() - i when i <= s.len()
{
    if i < s.len() && is_ws_char(s[i as int]) {
        skip_ws(s, i + 1)
    } else {
        i
    }
}

pub proof fn lemma_skip_ws(s: Seq<char>, i: nat)
    requires
        i <= s.len(),
    ensures
        i <= skip_ws(s, i) <= s.len(),
    decreases s.len() - i,
{
    if i < s.len() && is_ws_char(s[i as int]) {
        lemma_skip_ws(s, i + 1);
    }
}

/// The replacement for a backslash escape, where one is defined.
pub open spec fn unescape_char(c: char) -> Option<char> {
    if c == '"' {
        Some('"')
    } else if c == '\\' {
        Some('\\')
    } else if c == '/' {
        Some('/')
    } else if c == 'n' {
        Some('\n')
    } else if c == 't' {
        Some('\t')
    } else if c == 'r' {
        Some('\r')
    } else if c == 'b' {
        Some('\u{8}')
    } else if c == 'f' {
        Some('\u{c}')
    } else {
        Option::None
    }
}

/// Scans a string body starting just after its opening quote: characters up
/// to an unescaped closing quote, with backslash escapes replaced. Raw
/// control characters and unknown or unterminated escapes are refused. On
/// success: the decoded text and the position just after the closing quote.
pub open spec fn parse_string_body(s: Seq<char>, i: nat, acc: Seq<char>) -> Option<
    (Seq<char>, nat),
>
    decreases s.len() - i when i <= s.len()
{
    if i >= s.len() {
        Option::None
    } else if s[i as int] == '"' {
        Some((acc, (i + 1) as nat))
    } else if s[i as int] == '\\' {
        if i + 1 >= s.len() {
            Option::None
        } else {
            match unescape_char(s[i as int + 1]) {
                Some(c) => parse_string_body(s, i + 2, acc.push(c)),
                Option::None => Option::None,
            }
        }
    } else if (s[i as int] as u32) < 32 {
        Option::None
    } else {
        parse_string_body(s, i + 1, acc.push(s[i as int]))
    }
}

pub proof fn lemma_parse_string_body(s: Seq<char>, i: nat, acc: Seq<char>)
    requires
        i <= s.len(),
    ensures
        parse_string_body(s, i, acc) matches Some(r) ==> i < r.1 <= s.len(),
    decreases s.len() - i,
{
    if i < s.len() && s[i as int] != '"' {
        if s[i as int] == '\\' {
            if i + 1 < s.len() {
                match unescape_char(s[i as int + 1]) {
                    Some(c) => lemma_parse_string_body(s, i + 2, acc.push(c)),
                    Option::None => {},
                }
            }
        } else if (s[i as int] as u32) >= 32 {
            lemma_parse_string_body(s, i + 1, acc.push(s[i as int]));
        }
    }
}

fn scan_string_body(s: &str, i: usize, n: usize, acc: &mut String) -> (r: Option<usize>)
    requires
        i <= n,
        n == s@.len(),
    ensures
        match parse_string_body(s@, i as nat, old(acc)@) {
            Some(t) => r matches Some(j) && j == t.1 && final(acc)@ == t.0,
            Option::None => r is None,
        },
    decreases n - i,
{
    if i >= n {
        return Option::None;
    }
    let c = s.get_char(i);
    if c == '"' {
        return Some(i + 1);
    }
    if c == '\\' {
        if i + 1 >= n {
            return Option::None;
        }
        let e = s.get_char(i + 1);
        let decoded: Option<char> = if e == '"' {
            Some('"')
        } else if e == '\\' {
            Some('\\')
        } else if e == '/' {
            Some('/')
        } else if e == 'n' {
            Some('\n')
        } else if e == 't' {
            Some('\t')
        } else if e == 'r' {
            Some('\r')
        } else if e == 'b' {
            Some('\u{8}')
        } else if e == 'f' {
            Some('\u{c}')
        } else {
            Option::None
        };
        match decoded {
            Some(d) => {
                push_char(acc, d);
                return scan_string_body(s, i + 2, n, acc);
            },
            Option::None => {
                return Option::None;
            },
        }
    }
    if (c as u32) < 32 {
        return Option::None;
    }
    push_char(acc, c);
    scan_string_body(s, i + 1, n, acc)
}

/// Scans the members of an object from position `i` (just after `{` or a
/// `,`): whitespace, a quoted key, `:`, a quoted value, then either `,` and
/// further members or `}` followed only by whitespace. On success: every
/// pair read, in order, appended to `acc`.
pub open spec fn parse_members(s: Seq<char>, i: nat, acc: Seq<StrPairView>) -> Option<
    Seq<StrPairView>,
>
    decreases s.len() - i when i <= s.len() via parse_members_decreases
{
    let k0 = skip_ws(s, i);
    if k0 >= s.len() || s[k0 as int] != '"' {
        Option::None
    } else {
        match parse_string_body(s, k0 + 1, Seq::empty()) {
            Option::None => Option::None,
            Some(kr) => {
                let c0 = skip_ws(s, kr.1);
                if c0 >= s.len() || s[c0 as int] != ':' {
                    Option::None
                } else {
                    let v0 = skip_ws(s, (c0 + 1) as nat);
                    if v0 >= s.len() || s[v0 as int] != '"' {
                        Option::None
                    } else {
                        match parse_string_body(s, v0 + 1, Seq::empty()) {
                            Option::None => Option::None,
                            Some(vr) => {
                                let d = skip_ws(s, vr.1);
                                let pair = StrPairView { key: kr.0, value: vr.0 };
                                if d >= s.len() {
                                    Option::None
                                } else if s[d as int] == ',' {
                                    parse_members(s, (d + 1) as nat, acc.push(pair))
                                } else if s[d as int] == '}' {
                                    if skip_ws(s, (d + 1) as nat) == s.len() {
                                        Some(acc.push(pair))
                                    } else {
                                        Option::None
                                    }
                                } else {
                                    Option::None
                                }
                            },
                        }
                    }
                }
            },
        }
    }
}

#[via_fn]
proof fn parse_members_decreases(s: Seq<char>, i: nat, acc: Seq<StrPairView>) {
    lemma_skip_ws(s, i);
    let k0 = skip_ws(s, i);
    if k0 < s.len() && s[k0 as int] == '"' {
        lemma_parse_string_body(s, k0 + 1, Seq::empty());
        match parse_string_body(s, k0 + 1, Seq::empty()) {
            Some(kr) => {
                lemma_skip_ws(s, kr.1);
                let c0 = skip_ws(s, kr.1);
                if c0 < s.len() && s[c0 as int] == ':' {
                    lemma_skip_ws(s, (c0 + 1) as nat);
                    let v0 = skip_ws(s, (c0 + 1) as nat);
                    if v0 < s.len() && s[v0 as int] == '"' {
                        lemma_parse_string_body(s, v0 + 1, Seq::empty());
                        match parse_string_body(s, v0 + 1, Seq::empty()) {
                            Some(vr) => {
                                lemma_skip_ws(s, vr.1);
                            },
                            Option::None => {},
                        }
                    }
                }
            },
            Option::None => {},
        }
    }
}

/// Parses a whole text as one JSON object of string keys and string values:
/// the pairs in order, or nothing when the text has any other shape.
pub open spec fn parse_object(s: Seq<char>) -> Option<Seq<StrPairView>> {
    let i0 = skip_ws(s, 0);
    if i0 >= s.len() || s[i0 as int] != '{' {
        Option::None
    } else {
        let i1 = skip_ws(s, (i0 + 1) as nat);
        if i1 < s.len() && s[i1 as int] == '}' {
            if skip_ws(s, (i1 + 1) as nat) == s.len() {
                Some(Seq::empty())
            } else {
                Option::None
            }
        } else {
            parse_members(s, (i0 + 1) as nat, Seq::empty())
        }
    }
}

fn skip_ws_exec(s: &str, i: usize, n: usize) -> (r: usize)
    requires
        i <= n,
        n == s@.len(),
    ensures
        r == skip_ws(s@, i as nat),
        i <= r <= n,
    decreases n - i,
{
    if i < n {
        let c = s.get_char(i);
        if c == ' ' || c == '\n' || c == '\t' || c == '\r' {
            return skip_ws_exec(s, i + 1, n);
        }
    }
    i
}

fn scan_members(s: &str, i: usize, n: usize, acc: &mut Vec<StrPair>) -> (r: bool)
    requires
        i <= n,
        n == s@.len(),
    ensures
        match parse_members(s@, i as nat, old(acc).deep_view()) {
            Some(pairs) => r && final(acc).deep_view() == pairs,
            Option::None => !r,
        },
    decreases n - i,
{
    proof {
        lemma_skip_ws(s@, i as nat);
    }
    let k0 = skip_ws_exec(s, i, n);
    if k0 >= n {
        return false;
    }
    if s.get_char(k0) != '"' {
        return false;
    }
    let mut key = String::new();
    let kj = match scan_string_body(s, k0 + 1, n, &mut key) {
        Option::None => {
            return false;
        },
        Some(j) => j,
    };
    proof {
        lemma_parse_string_body(s@, (k0 + 1) as nat, Seq::empty());
    }
    let c0 = skip_ws_exec(s, kj, n);
    if c0 >= n {
        return false;
    }
    if s.get_char(c0) != ':' {
        return false;
    }
    let v0 = skip_ws_exec(s, c0 + 1, n);
    if v0 >= n {
        return false;
    }
    if s.get_char(v0) != '"' {
        return false;
    }
    let mut value = String::new();
    let vj = match scan_string_body(s, v0 + 1, n, &mut value) {
        Option::None => {
            return false;
        },
        Some(j) => j,
    };
    proof {
        lemma_parse_string_body(s@, (v0 + 1) as nat, Seq::empty());
    }
    let d = skip_ws_exec(s, vj, n);
    if d >= n {
        return false;
    }
    let ghost before = acc.deep_view();
    let dc = s.get_char(d);
    if dc == ',' {
        acc.push(StrPair { key, value });
        proof {
            assert(acc.deep_view() =~= before.push(
                StrPairView { key: key@, value: value@ },
            ));
        }
        return scan_members(s, d + 1, n, acc);
    }
    if dc == '}' {
        let tail = skip_ws_exec(s, d + 1, n);
        if tail == n {
            acc.push(StrPair { key, value });
            proof {
                assert(acc.deep_view() =~= before.push(
                    StrPairView { key: key@, value: value@ },
                ));
            }
            return true;
        }
        return false;
    }
    false
}

/// Parses a text frame as one JSON object of string keys and string values.
pub fn parse_json_object(s: &str) -> (r: Option<Vec<StrPair>>)
    ensures
        match parse_object(s@) {
            Some(pairs) => r matches Some(v) && v.deep_view() == pairs,
            Option::None => r is None,
        },
{
    let n = s.unicode_len();
    proof {
        lemma_skip_ws(s@, 0);
    }
    let i0 = skip_ws_exec(s, 0, n);
    if i0 >= n {
        return Option::None;
    }
    if s.get_char(i0) != '{' {
        return Option::None;
    }
    let i1 = skip_ws_exec(s, i0 + 1, n);
    if i1 < n && s.get_char(i1) == '}' {
        let tail = skip_ws_exec(s, i1 + 1, n);
        if tail == n {
            let empty: Vec<StrPair> = Vec::new();
            proof {
                assert(empty.deep_view() =~= Seq::<StrPairView>::empty());
            }
            return Some(empty);
        }
        return Option::None;
    }
    let mut pairs: Vec<StrPair> = Vec::new();
    proof {
        assert(pairs.deep_view() =~= Seq::<StrPairView>::empty());
    }
    if scan_members(s, i0 + 1, n, &mut pairs) {
        Some(pairs)
    } else {
        Option::None
    }
}

/// The value of the first pair carrying `key`.
pub open spec fn lookup_pair(pairs: Seq<StrPairView>, key: Seq<char>) -> Option<Seq<char>>
    decreases pairs.len(),
{
    if pairs.len() == 0 {
        Option::None
    } else if pairs[0].key == key {
        Some(pairs[0].value)
    } else {
        lookup_pair(pairs.drop_first(), key)
    }
}

/// Finds the first value stored under `key`.
pub fn lookup_pair_exec(pairs: &Vec<StrPair>, key: &str) -> (r: Option<String>)
    ensures
        match lookup_pair(pairs.deep_view(), key@) {
            Some(v) => r matches Some(found) && found@ == v,
            Option::None => r is None,
        },
{
    let ghost ps = pairs.deep_view();
    proof {
        assert(ps.subrange(0, ps.len() as int) =~= ps);
    }
    let mut k: usize = 0;
    while k < pairs.len()
        invariant
            k <= pairs.len(),
            ps == pairs.deep_view(),
            lookup_pair(ps, key@) == lookup_pair(ps.subrange(k as int, ps.len() as int), key@),
        decreases pairs.len() - k,
    {
        let ghost suffix = ps.subrange(k as int, ps.len() as int);
        proof {
            assert(suffix[0] == ps[k as int]);
            assert(suffix.drop_first() =~= ps.subrange(k as int + 1, ps.len() as int));
        }
        if crate::permission::str_eq(pairs[k].key.as_str(), key) {
            return Some(pairs[k].value.clone());
        }
        k += 1;
    }
    proof {
        assert(ps.subrange(ps.len() as int, ps.len() as int).len() == 0);
    }
    Option::None
}

} // verus!
