//! The response tokenizer: from the lines of one reply to its key/value pairs,
//! or to the error that its terminal line reports.

use vstd::prelude::*;
use crate::error::{DecodeError, DecodeErrorView, ErrorView, MpdError, ProtocolError, ProtocolErrorView};
use crate::text::{decimal, is_digit, lemma_decimal_reads_back, parse_u32, parse_u32_spec};

verus! {

/// One `key: value` line of a reply.
pub struct KeyValue {
    pub key: String,
    pub value: String,
}

impl View for KeyValue {
    type V = (Seq<char>, Seq<char>);

    open spec fn view(&self) -> (Seq<char>, Seq<char>) {
        (self.key@, self.value@)
    }
}

pub open spec fn kvs_view(v: Seq<KeyValue>) -> Seq<(Seq<char>, Seq<char>)> {
    v.map_values(|kv: KeyValue| kv@)
}

pub open spec fn strs_view(v: Seq<String>) -> Seq<Seq<char>> {
    v.map_values(|s: String| s@)
}

pub open spec fn is_blank(c: char) -> bool {
    c == ' ' || c == '\t'
}

/// The first index at or after `i` that holds `c`, or the length where there is none.
pub open spec fn find_from(s: Seq<char>, c: char, i: int) -> int
    decreases s.len() - i,
{
    if i < 0 || i >= s.len() {
        s.len() as int
    } else if s[i] == c {
        i
    } else {
        find_from(s, c, i + 1)
    }
}

/// The first index at or after `i` that is not blank.
pub open spec fn skip_blank(s: Seq<char>, i: int) -> int
    decreases s.len() - i,
{
    if 0 <= i < s.len() && is_blank(s[i]) {
        skip_blank(s, i + 1)
    } else {
        i
    }
}

/// The end of `s[lo..j]` once trailing blanks are dropped.
pub open spec fn back_blank(s: Seq<char>, lo: int, j: int) -> int
    decreases j - lo,
{
    if lo < j && j <= s.len() && is_blank(s[j - 1]) {
        back_blank(s, lo, j - 1)
    } else {
        j
    }
}

/// `s` without leading and trailing blanks.
pub open spec fn trim(s: Seq<char>) -> Seq<char> {
    let lo = skip_blank(s, 0);
    s.subrange(lo, back_blank(s, lo, s.len() as int))
}

/// `s` without its first character where that is a space.
pub open spec fn strip_one_space(s: Seq<char>) -> Seq<char> {
    if s.len() > 0 && s[0] == ' ' { s.drop_first() } else { s }
}

pub open spec fn ok_line() -> Seq<char> {
    seq!['O', 'K']
}

pub open spec fn ack_prefix() -> Seq<char> {
    seq!['A', 'C', 'K']
}

/// The pair of a data line: the key is what precedes the first colon, trimmed;
/// the value is what follows it, less one leading space. `None` without a colon.
pub open spec fn key_value_of(line: Seq<char>) -> Option<(Seq<char>, Seq<char>)> {
    let c = find_from(line, ':', 0);
    if c < line.len() {
        Some((trim(line.subrange(0, c)), strip_one_space(line.subrange(c + 1, line.len() as int))))
    } else {
        None
    }
}

/// The fields of `ACK [<code>@<index>] {<command>} <message>`, or `None` where the
/// line does not follow that grammar.
pub open spec fn ack_of(line: Seq<char>) -> Option<ProtocolErrorView> {
    let n = line.len() as int;
    let at = find_from(line, '@', 5);
    let rb = find_from(line, ']', at + 1);
    let cb = find_from(line, '}', rb + 3);
    if n >= 5 && line.subrange(0, 5) == seq!['A', 'C', 'K', ' ', '['] && at < n && rb < n
        && rb + 2 < n && line[rb + 1] == ' ' && line[rb + 2] == '{' && cb < n && cb + 1 < n
        && line[cb + 1] == ' ' && parse_u32_spec(line.subrange(5, at)) is Some
        && parse_u32_spec(line.subrange(at + 1, rb)) is Some {
        Some(
            ProtocolErrorView {
                code: parse_u32_spec(line.subrange(5, at))->Some_0,
                index: parse_u32_spec(line.subrange(at + 1, rb))->Some_0,
                command: line.subrange(rb + 3, cb),
                message: line.subrange(cb + 2, n),
            },
        )
    } else {
        None
    }
}

/// What an error line stands for.
pub open spec fn ack_error(line: Seq<char>) -> ErrorView {
    match ack_of(line) {
        Some(e) => ErrorView::Protocol(e),
        None => ErrorView::UnparseableAck,
    }
}

pub open spec fn prepend_kv(
    kv: (Seq<char>, Seq<char>),
    r: Result<Seq<(Seq<char>, Seq<char>)>, ErrorView>,
) -> Result<Seq<(Seq<char>, Seq<char>)>, ErrorView> {
    match r {
        Ok(s) => Ok(seq![kv] + s),
        Err(e) => Err(e),
    }
}

/// The reply made of `lines[i..]`: data lines up to the first `OK` line, or the
/// error of the first `ACK` line, of the first line without a colon, or of a
/// reply that ends before either.
pub open spec fn tokenize_from(lines: Seq<Seq<char>>, i: int) -> Result<Seq<(Seq<char>, Seq<char>)>, ErrorView>
    decreases lines.len() - i,
{
    if i < 0 || i >= lines.len() {
        Err(ErrorView::TruncatedResponse)
    } else if lines[i] == ok_line() {
        Ok(Seq::empty())
    } else if lines[i].len() >= 3 && lines[i].subrange(0, 3) == ack_prefix() {
        Err(ack_error(lines[i]))
    } else {
        match key_value_of(lines[i]) {
            Some(kv) => prepend_kv(kv, tokenize_from(lines, i + 1)),
            None => Err(ErrorView::Decode(DecodeErrorView::MalformedLine)),
        }
    }
}

pub open spec fn tokenize_spec(lines: Seq<Seq<char>>) -> Result<Seq<(Seq<char>, Seq<char>)>, ErrorView> {
    tokenize_from(lines, 0)
}

pub open spec fn kvs_result_view(r: Result<Vec<KeyValue>, MpdError>) -> Result<Seq<(Seq<char>, Seq<char>)>, ErrorView> {
    match r {
        Ok(v) => Ok(kvs_view(v@)),
        Err(e) => Err(e@),
    }
}

pub open spec fn prepend_all(
    pre: Seq<(Seq<char>, Seq<char>)>,
    r: Result<Seq<(Seq<char>, Seq<char>)>, ErrorView>,
) -> Result<Seq<(Seq<char>, Seq<char>)>, ErrorView> {
    match r {
        Ok(s) => Ok(pre + s),
        Err(e) => Err(e),
    }
}

proof fn lemma_prepend_push(
    pre: Seq<(Seq<char>, Seq<char>)>,
    kv: (Seq<char>, Seq<char>),
    r: Result<Seq<(Seq<char>, Seq<char>)>, ErrorView>,
)
    ensures
        prepend_all(pre, prepend_kv(kv, r)) == prepend_all(pre.push(kv), r),
{
    if let Ok(s) = r {
        assert(pre + (seq![kv] + s) =~= pre.push(kv) + s);
    }
}

/// Index of the first `c` in `s` at or after `i`, or the length.
pub fn find_char(s: &str, c: char, i: usize) -> (r: usize)
    ensures
        r as int == find_from(s@, c, i as int),
        r <= s@.len(),
        i <= s@.len() ==> i <= r,
{
    let n = s.unicode_len();
    if i >= n {
        return n;
    }
    let mut j = i;
    while j < n
        invariant
            n == s@.len(),
            i <= j <= n,
            find_from(s@, c, j as int) == find_from(s@, c, i as int),
        decreases n - j,
    {
        if s.get_char(j) == c {
            return j;
        }
        j = j + 1;
    }
    n
}

/// `s` without leading and trailing blanks.
pub fn trim_blanks(s: &str) -> (r: String)
    ensures
        r@ == trim(s@),
{
    let n = s.unicode_len();
    let mut lo: usize = 0;
    while lo < n && is_blank_char(s.get_char(lo))
        invariant
            n == s@.len(),
            lo <= n,
            skip_blank(s@, lo as int) == skip_blank(s@, 0),
        decreases n - lo,
    {
        lo = lo + 1;
    }
    let mut hi: usize = n;
    while hi > lo && is_blank_char(s.get_char(hi - 1))
        invariant
            n == s@.len(),
            lo <= hi <= n,
            lo == skip_blank(s@, 0),
            back_blank(s@, lo as int, hi as int) == back_blank(s@, lo as int, n as int),
        decreases hi,
    {
        hi = hi - 1;
    }
    s.substring_char(lo, hi).to_string()
}

fn is_blank_char(c: char) -> (r: bool)
    ensures
        r == is_blank(c),
{
    c == ' ' || c == '\t'
}

/// Splits a data line into its key and value.
pub fn parse_key_value(line: &str) -> (r: Option<KeyValue>)
    ensures
        match r {
            Some(kv) => key_value_of(line@) == Some(kv@),
            None => key_value_of(line@) is None,
        },
{
    let n = line.unicode_len();
    let c = find_char(line, ':', 0);
    if c >= n {
        return None;
    }
    let key = trim_blanks(line.substring_char(0, c));
    let rest = line.substring_char(c + 1, n);
    let value = if rest.unicode_len() > 0 && rest.get_char(0) == ' ' {
        let m = rest.unicode_len();
        let v = rest.substring_char(1, m).to_string();
        assert(v@ =~= rest@.drop_first());
        v
    } else {
        rest.to_string()
    };
    Some(KeyValue { key, value })
}

/// Reads the fields of an `ACK` line.
pub fn parse_ack(line: &str) -> (r: Option<ProtocolError>)
    ensures
        match r {
            Some(e) => ack_of(line@) == Some(e@),
            None => ack_of(line@) is None,
        },
{
    let n = line.unicode_len();
    if n < 5 || line.get_char(0) != 'A' || line.get_char(1) != 'C' || line.get_char(2) != 'K'
        || line.get_char(3) != ' ' || line.get_char(4) != '[' {
        proof {
            if n >= 5 {
                let p = line@.subrange(0, 5);
                if p == seq!['A', 'C', 'K', ' ', '['] {
                    assert(p[0] == line@[0] && p[1] == line@[1] && p[2] == line@[2] && p[3] == line@[3] && p[4] == line@[4]);
                }
            }
        }
        return None;
    }
    assert(line@.subrange(0, 5) =~= seq!['A', 'C', 'K', ' ', '[']);
    let at = find_char(line, '@', 5);
    if at >= n {
        return None;
    }
    let rb = find_char(line, ']', at + 1);
    if rb >= n || n - rb <= 2 || line.get_char(rb + 1) != ' ' || line.get_char(rb + 2) != '{' {
        return None;
    }
    let cb = find_char(line, '}', rb + 3);
    if cb >= n || n - cb <= 1 || line.get_char(cb + 1) != ' ' {
        return None;
    }
    let code = match parse_u32(line, 5, at) {
        Some(v) => v,
        None => return None,
    };
    let index = match parse_u32(line, at + 1, rb) {
        Some(v) => v,
        None => return None,
    };
    let command = line.substring_char(rb + 3, cb).to_string();
    let message = line.substring_char(cb + 2, n).to_string();
    Some(ProtocolError { code, index, command, message })
}

fn is_ok_line(line: &str) -> (r: bool)
    ensures
        r == (line@ == ok_line()),
{
    let n = line.unicode_len();
    if n == 2 && line.get_char(0) == 'O' && line.get_char(1) == 'K' {
        assert(line@ =~= ok_line());
        true
    } else {
        false
    }
}

fn has_ack_prefix(line: &str) -> (r: bool)
    ensures
        r == (line@.len() >= 3 && line@.subrange(0, 3) == ack_prefix()),
{
    let n = line.unicode_len();
    if n >= 3 && line.get_char(0) == 'A' && line.get_char(1) == 'C' && line.get_char(2) == 'K' {
        assert(line@.subrange(0, 3) =~= ack_prefix());
        true
    } else {
        proof {
            if n >= 3 && line@.subrange(0, 3) == ack_prefix() {
                assert(line@.subrange(0, 3)[0] == line@[0]);
                assert(line@.subrange(0, 3)[1] == line@[1]);
                assert(line@.subrange(0, 3)[2] == line@[2]);
            }
        }
        false
    }
}

/// The error that an `ACK` line stands for.
fn ack_line_error(line: &str) -> (e: MpdError)
    ensures
        e@ == ack_error(line@),
{
    match parse_ack(line) {
        Some(p) => MpdError::Protocol(p),
        None => MpdError::UnparseableAck,
    }
}

/// Tokenizes the lines of one reply (each without its newline): the key/value
/// pairs before the `OK` line, or the error that ends the reply.
pub fn tokenize(lines: &Vec<String>) -> (r: Result<Vec<KeyValue>, MpdError>)
    ensures
        kvs_result_view(r) == tokenize_spec(strs_view(lines@)),
{
    let ghost ls = strs_view(lines@);
    let mut out: Vec<KeyValue> = Vec::new();
    let mut i: usize = 0;
    while i < lines.len()
        invariant
            ls == strs_view(lines@),
            i <= lines.len(),
            tokenize_spec(ls) == prepend_all(kvs_view(out@), tokenize_from(ls, i as int)),
        decreases lines.len() - i,
    {
        let line = lines[i].as_str();
        assert(line@ == ls[i as int]);
        if is_ok_line(line) {
            assert(kvs_view(out@) + Seq::empty() =~= kvs_view(out@));
            return Ok(out);
        }
        if has_ack_prefix(line) {
            return Err(ack_line_error(line));
        }
        match parse_key_value(line) {
            Some(kv) => {
                proof {
                    lemma_prepend_push(kvs_view(out@), kv@, tokenize_from(ls, i + 1));
                }
                let ghost before = out@;
                out.push(kv);
                assert(kvs_view(out@) =~= kvs_view(before).push(out@.last()@));
            },
            None => return Err(MpdError::Decode(DecodeError::MalformedLine)),
        }
        i = i + 1;
    }
    Err(MpdError::TruncatedResponse)
}

/// The lines of `text[i..]`: each ends at a newline, which it does not keep.
pub open spec fn lines_from(text: Seq<char>, i: int) -> Seq<Seq<char>>
    decreases text.len() + 1 - i,
    via lines_from_decreases
{
    if i < 0 || i >= text.len() {
        Seq::empty()
    } else {
        let j = find_from(text, '\n', i);
        seq![text.subrange(i, j)] + lines_from(text, j + 1)
    }
}

/// A search from a valid index stops at or after it, and at most at the length.
pub proof fn lemma_find_bounds(s: Seq<char>, c: char, i: int)
    requires
        0 <= i <= s.len(),
    ensures
        i <= find_from(s, c, i) <= s.len(),
    decreases s.len() - i,
{
    if i < s.len() && s[i] != c {
        lemma_find_bounds(s, c, i + 1);
    }
}

#[via_fn]
proof fn lines_from_decreases(text: Seq<char>, i: int) {
    if 0 <= i < text.len() {
        lemma_find_bounds(text, '\n', i);
    }
}

pub open spec fn lines_of(text: Seq<char>) -> Seq<Seq<char>> {
    lines_from(text, 0)
}

/// Cuts the raw text of a reply into its lines.
pub fn split_lines(text: &str) -> (r: Vec<String>)
    ensures
        strs_view(r@) == lines_of(text@),
{
    let n = text.unicode_len();
    let mut out: Vec<String> = Vec::new();
    let mut i: usize = 0;
    while i < n
        invariant
            n == text@.len(),
            i <= n,
            strs_view(out@) + lines_from(text@, i as int) == lines_of(text@),
        decreases n - i,
    {
        let j = find_char(text, '\n', i);
        let line = text.substring_char(i, j).to_string();
        let ghost before = out@;
        out.push(line);
        assert(strs_view(out@) =~= strs_view(before).push(line@));
        assert(strs_view(out@) + lines_from(text@, j + 1) =~= strs_view(before) + lines_from(text@, i as int));
        i = if j < n { j + 1 } else { n };
    }
    assert(strs_view(out@) + lines_from(text@, i as int) =~= strs_view(out@));
    out
}

/// Tokenizes the raw text of one reply.
pub fn tokenize_text(text: &str) -> (r: Result<Vec<KeyValue>, MpdError>)
    ensures
        kvs_result_view(r) == tokenize_spec(lines_of(text@)),
{
    tokenize(&split_lines(text))
}

/// A line that is neither terminal nor malformed: it carries one pair.
pub open spec fn is_data_line(line: Seq<char>) -> bool {
    &&& line != ok_line()
    &&& !(line.len() >= 3 && line.subrange(0, 3) == ack_prefix())
    &&& key_value_of(line) is Some
}

/// A reply of data lines alone, with no terminal line, is truncated.
pub proof fn lemma_no_terminal_is_truncated(lines: Seq<Seq<char>>)
    requires
        forall|i: int| 0 <= i < lines.len() ==> is_data_line(#[trigger] lines[i]),
    ensures
        tokenize_spec(lines) == Err::<Seq<(Seq<char>, Seq<char>)>, ErrorView>(ErrorView::TruncatedResponse),
{
    lemma_truncated_tail(lines, 0);
}

proof fn lemma_truncated_tail(lines: Seq<Seq<char>>, k: int)
    requires
        0 <= k <= lines.len(),
        forall|j: int| 0 <= j < lines.len() ==> is_data_line(#[trigger] lines[j]),
    ensures
        tokenize_from(lines, k) == Err::<Seq<(Seq<char>, Seq<char>)>, ErrorView>(ErrorView::TruncatedResponse),
    decreases lines.len() - k,
{
    if k < lines.len() {
        lemma_truncated_tail(lines, k + 1);
        assert(is_data_line(lines[k]));
    }
}

/// Where `s[i..j]` holds no `c` and `j` ends `s` or holds `c`, the search from `i` stops at `j`.
pub proof fn lemma_find_stops(s: Seq<char>, c: char, i: int, j: int)
    requires
        0 <= i <= j <= s.len(),
        forall|k: int| i <= k < j ==> s[k] != c,
        j == s.len() || s[j] == c,
    ensures
        find_from(s, c, i) == j,
    decreases j - i,
{
    if i < j {
        lemma_find_stops(s, c, i + 1, j);
    }
}

/// The error line of a refused command, as the server writes it.
pub open spec fn ack_line(code: u32, index: u32, command: Seq<char>, message: Seq<char>) -> Seq<char> {
    seq!['A', 'C', 'K', ' ', '['] + decimal(code as nat) + seq!['@'] + decimal(index as nat)
        + seq![']', ' ', '{'] + command + seq!['}', ' '] + message
}

/// An `ACK` line ends the reply with exactly its code, index, command and message,
/// whatever lines follow it.
pub proof fn lemma_ack_fields_extracted(
    code: u32,
    index: u32,
    command: Seq<char>,
    message: Seq<char>,
    rest: Seq<Seq<char>>,
)
    requires
        forall|k: int| 0 <= k < command.len() ==> command[k] != '}',
    ensures
        tokenize_spec(seq![ack_line(code, index, command, message)] + rest)
            == Err::<Seq<(Seq<char>, Seq<char>)>, ErrorView>(ErrorView::Protocol(
            ProtocolErrorView { code, index, command, message },
        )),
{
    let line = ack_line(code, index, command, message);
    let lines = seq![line] + rest;
    let dc = decimal(code as nat);
    let di = decimal(index as nat);
    lemma_decimal_reads_back(code as nat);
    lemma_decimal_reads_back(index as nat);
    let at: int = 5 + dc.len() as int;
    let rb: int = at + 1 + di.len() as int;
    let cb: int = rb + 3 + command.len() as int;
    assert(line.subrange(0, 5) =~= seq!['A', 'C', 'K', ' ', '[']);
    assert(line.subrange(0, 3) =~= ack_prefix());
    assert(line.subrange(5, at) =~= dc);
    assert(line.subrange(at + 1, rb) =~= di);
    assert(line.subrange(rb + 3, cb) =~= command);
    assert(line.subrange(cb + 2, line.len() as int) =~= message);
    assert forall|k: int| 5 <= k < at implies line[k] != '@' by {
        assert(line[k] == dc[k - 5]);
        assert(is_digit(dc[k - 5]));
    }
    assert(line[at] == '@');
    lemma_find_stops(line, '@', 5, at);
    assert forall|k: int| at + 1 <= k < rb implies line[k] != ']' by {
        assert(line[k] == di[k - at - 1]);
        assert(is_digit(di[k - at - 1]));
    }
    assert(line[rb] == ']');
    lemma_find_stops(line, ']', at + 1, rb);
    assert forall|k: int| rb + 3 <= k < cb implies line[k] != '}' by {
        assert(line[k] == command[k - rb - 3]);
    }
    assert(line[cb] == '}');
    lemma_find_stops(line, '}', rb + 3, cb);
    assert(line[rb + 1] == ' ' && line[rb + 2] == '{' && line[cb + 1] == ' ');
    assert(line != ok_line()) by {
        assert(line[0] != ok_line()[0]);
    }
    assert(lines[0] == line);
}

} // verus!
