//! Reading a command line back into its name and arguments: the inverse of the
//! encoder on names without spaces and arguments without double quotes.

use vstd::prelude::*;
use crate::cmd::{cmdline, opt_params_view, params_text, quoted, MpdCmd, MpdCmdParameters, ParamsView};
use crate::response::{find_char, find_from, lemma_find_stops};
use crate::text::{decimal, is_digit, lemma_decimal_reads_back, parse_u32, parse_u32_spec};

verus! {

pub open spec fn lacks(s: Seq<char>, c: char) -> bool {
    forall|k: int| 0 <= k < s.len() ==> s[k] != c
}

/// Arguments that the encoder writes unambiguously: no double quote inside a value.
pub open spec fn args_unquoted(arg: Option<ParamsView>) -> bool {
    match arg {
        None => true,
        Some(ParamsView::Str(a)) => lacks(a, '"'),
        Some(ParamsView::StrStr(a, b)) => lacks(a, '"') && lacks(b, '"'),
        Some(ParamsView::NumStr(_, a)) => lacks(a, '"'),
    }
}

/// The arguments written after the name's space: one quoted value, two quoted
/// values, or a number and a quoted value.
pub open spec fn params_of(rest: Seq<char>) -> Option<ParamsView> {
    let n = rest.len() as int;
    let q = find_from(rest, '"', 1);
    let sp = find_from(rest, ' ', 0);
    if n >= 2 && rest[0] == '"' {
        if q == n - 1 {
            Some(ParamsView::Str(rest.subrange(1, n - 1)))
        } else if q + 3 < n && rest[q + 1] == ' ' && rest[q + 2] == '"' && find_from(rest, '"', q + 3) == n - 1 {
            Some(ParamsView::StrStr(rest.subrange(1, q), rest.subrange(q + 3, n - 1)))
        } else {
            None
        }
    } else if sp + 2 < n && rest[sp + 1] == '"' && find_from(rest, '"', sp + 2) == n - 1
        && parse_u32_spec(rest.subrange(0, sp)) is Some {
        Some(ParamsView::NumStr(parse_u32_spec(rest.subrange(0, sp))->Some_0, rest.subrange(sp + 2, n - 1)))
    } else {
        None
    }
}

/// The name and arguments of a newline-terminated command line.
pub open spec fn cmdline_of(line: Seq<char>) -> Option<(Seq<char>, Option<ParamsView>)> {
    if line.len() == 0 || line.last() != '\n' {
        None
    } else {
        let body = line.drop_last();
        let sp = find_from(body, ' ', 0);
        if sp == body.len() {
            Some((body, None))
        } else {
            match params_of(body.subrange(sp + 1, body.len() as int)) {
                Some(p) => Some((body.subrange(0, sp), Some(p))),
                None => None,
            }
        }
    }
}

proof fn lemma_quoted_close(s: Seq<char>, a: Seq<char>, start: int)
    requires
        lacks(a, '"'),
        0 <= start,
        start + a.len() < s.len(),
        s.subrange(start, start + a.len()) == a,
        s[start + a.len()] == '"',
    ensures
        find_from(s, '"', start) == start + a.len(),
{
    assert forall|k: int| start <= k < start + a.len() implies s[k] != '"' by {
        assert(s[k] == s.subrange(start, start + a.len())[k - start]);
    }
    lemma_find_stops(s, '"', start, start + a.len());
}

proof fn lemma_params_round_trip(p: ParamsView)
    requires
        args_unquoted(Some(p)),
    ensures
        params_of(params_text(p).drop_first()) == Some(p),
{
    let rest = params_text(p).drop_first();
    let n = rest.len() as int;
    match p {
        ParamsView::Str(a) => {
            assert(rest =~= quoted(a));
            assert(rest.subrange(1, 1 + a.len() as int) =~= a);
            lemma_quoted_close(rest, a, 1);
            assert(rest.subrange(1, n - 1) =~= a);
        },
        ParamsView::StrStr(a, b) => {
            assert(rest =~= quoted(a) + seq![' '] + quoted(b));
            let q: int = 1 + a.len() as int;
            assert(rest.subrange(1, q) =~= a);
            lemma_quoted_close(rest, a, 1);
            assert(rest.subrange(q + 3, q + 3 + b.len()) =~= b);
            lemma_quoted_close(rest, b, q + 3);
            assert(rest.subrange(q + 3, n - 1) =~= b);
        },
        ParamsView::NumStr(v, a) => {
            let d = decimal(v as nat);
            lemma_decimal_reads_back(v as nat);
            assert(rest =~= d + seq![' '] + quoted(a));
            let sp = d.len() as int;
            assert forall|k: int| 0 <= k < sp implies rest[k] != ' ' by {
                assert(rest[k] == d[k]);
                assert(is_digit(d[k]));
            }
            lemma_find_stops(rest, ' ', 0, sp);
            assert(rest[0] == d[0] && is_digit(d[0]));
            assert(rest.subrange(0, sp) =~= d);
            assert(rest.subrange(sp + 2, sp + 2 + a.len()) =~= a);
            lemma_quoted_close(rest, a, sp + 2);
            assert(rest.subrange(sp + 2, n - 1) =~= a);
        },
    }
}

/// Decoding the line that the encoder writes gives back the name and the
/// argument values, where the name has no space and no value a double quote.
pub proof fn lemma_cmdline_round_trip(name: Seq<char>, arg: Option<ParamsView>)
    requires
        lacks(name, ' '),
        args_unquoted(arg),
    ensures
        cmdline_of(cmdline(name, arg)) == Some((name, arg)),
{
    let line = cmdline(name, arg);
    let body = line.drop_last();
    match arg {
        None => {
            assert(body =~= name);
            lemma_find_stops(body, ' ', 0, body.len() as int);
        },
        Some(p) => {
            assert(body =~= name + params_text(p));
            assert forall|k: int| 0 <= k < name.len() implies body[k] != ' ' by {
                assert(body[k] == name[k]);
            }
            lemma_find_stops(body, ' ', 0, name.len() as int);
            assert(body.subrange(0, name.len() as int) =~= name);
            assert(body.subrange(name.len() as int + 1, body.len() as int) =~= params_text(p).drop_first());
            lemma_params_round_trip(p);
        },
    }
}

/// For every command, decoding its wire line gives back its name and arguments.
pub proof fn lemma_command_round_trip<C: MpdCmd>(c: &C)
    requires
        lacks(C::CMD@, ' '),
        args_unquoted(c.spec_argument()),
    ensures
        cmdline_of(cmdline(C::CMD@, c.spec_argument())) == Some((C::CMD@, c.spec_argument())),
{
    lemma_cmdline_round_trip(C::CMD@, c.spec_argument());
}

pub open spec fn opt_cmdline_view(r: Option<(String, Option<MpdCmdParameters>)>) -> Option<(Seq<char>, Option<ParamsView>)> {
    match r {
        Some((name, arg)) => Some((name@, opt_params_view(arg))),
        None => None,
    }
}

/// Reads the arguments that follow a command name and its space.
pub fn parse_params(rest: &str) -> (r: Option<MpdCmdParameters>)
    ensures
        opt_params_view(r) == params_of(rest@),
{
    let n = rest.unicode_len();
    let q = find_char(rest, '"', 1);
    let sp = find_char(rest, ' ', 0);
    if n >= 2 && rest.get_char(0) == '"' {
        if q == n - 1 {
            Some(MpdCmdParameters::String(rest.substring_char(1, n - 1).to_string()))
        } else if q < n && n - q > 3 && rest.get_char(q + 1) == ' ' && rest.get_char(q + 2) == '"'
            && find_char(rest, '"', q + 3) == n - 1 {
            let a = rest.substring_char(1, q).to_string();
            let b = rest.substring_char(q + 3, n - 1).to_string();
            Some(MpdCmdParameters::StringAndString(a, b))
        } else {
            None
        }
    } else if sp < n && n - sp > 2 && rest.get_char(sp + 1) == '"' && find_char(rest, '"', sp + 2) == n - 1 {
        match parse_u32(rest, 0, sp) {
            Some(v) => Some(MpdCmdParameters::U32AndString(v, rest.substring_char(sp + 2, n - 1).to_string())),
            None => None,
        }
    } else {
        None
    }
}

/// Reads a command line back into its name and arguments.
pub fn parse_cmdline(line: &str) -> (r: Option<(String, Option<MpdCmdParameters>)>)
    ensures
        opt_cmdline_view(r) == cmdline_of(line@),
{
    let n = line.unicode_len();
    if n == 0 || line.get_char(n - 1) != '\n' {
        return None;
    }
    let body = line.substring_char(0, n - 1);
    assert(body@ =~= line@.drop_last());
    let m = n - 1;
    let sp = find_char(body, ' ', 0);
    if sp == m {
        return Some((body.to_string(), None));
    }
    match parse_params(body.substring_char(sp + 1, m)) {
        Some(p) => Some((body.substring_char(0, sp).to_string(), Some(p))),
        None => None,
    }
}

} // verus!
