//! Commands: one type per protocol verb, each with its name, its arguments and
//! the single response handler its reply is decoded with.

use vstd::prelude::*;
use crate::entity::{self, DatabaseVersion, ListallResponse};
use crate::handlers::{MixedResponseResponse, OkResponse, RespMapResponse, ResponseHandler, Tracks};
use crate::text::{decimal, u32_to_decimal};

verus! {

#[derive(Copy, Clone)]
pub struct Stats;

#[derive(Copy, Clone)]
pub struct Status;

#[derive(Copy, Clone)]
pub struct Setvol(pub u32);

#[derive(Copy, Clone)]
pub struct Repeat(pub bool);

#[derive(Copy, Clone)]
pub struct Random(pub bool);

#[derive(Copy, Clone)]
pub struct Consume(pub bool);

#[derive(Copy, Clone)]
pub struct PlayId(pub u32);

#[derive(Copy, Clone)]
pub struct PlayAtPosition(pub u32);

#[derive(Copy, Clone)]
pub struct QueueClear;

#[derive(Copy, Clone)]
pub struct QueueAdd<'a, 'b>(pub &'a str, pub Option<&'b str>);

#[derive(Copy, Clone)]
pub struct QueueMoveId<'a>(pub u32, pub &'a str);

#[derive(Copy, Clone)]
pub struct QueueDeleteId(pub u32);

#[derive(Copy, Clone)]
pub struct Search<'a>(pub Option<&'a str>);

#[derive(Copy, Clone)]
pub struct PlaylistInfo;

#[derive(Copy, Clone)]
pub struct Stop;

#[derive(Copy, Clone)]
pub struct PlayPause(pub bool);

#[derive(Copy, Clone)]
pub struct Next;

#[derive(Copy, Clone)]
pub struct Prev;

#[derive(Copy, Clone)]
pub struct Rescan<'a>(pub Option<&'a str>);

#[derive(Copy, Clone)]
pub struct Update<'a>(pub Option<&'a str>);

#[derive(Copy, Clone)]
pub struct Idle;

#[derive(Copy, Clone)]
pub struct NoIdle;

#[derive(Copy, Clone)]
pub struct Listall<'a>(pub Option<&'a str>);

#[derive(Copy, Clone)]
pub struct ListallInfo<'a>(pub Option<&'a str>);

/// The arguments of a command line.
pub enum MpdCmdParameters {
    String(String),
    StringAndString(String, String),
    U32AndString(u32, String),
}

/// The arguments of a command line as values.
pub enum ParamsView {
    Str(Seq<char>),
    StrStr(Seq<char>, Seq<char>),
    NumStr(u32, Seq<char>),
}

impl View for MpdCmdParameters {
    type V = ParamsView;

    open spec fn view(&self) -> ParamsView {
        match self {
            MpdCmdParameters::String(a) => ParamsView::Str(a@),
            MpdCmdParameters::StringAndString(a, b) => ParamsView::StrStr(a@, b@),
            MpdCmdParameters::U32AndString(n, a) => ParamsView::NumStr(*n, a@),
        }
    }
}

pub open spec fn opt_params_view(p: Option<MpdCmdParameters>) -> Option<ParamsView> {
    match p {
        Some(q) => Some(q@),
        None => None,
    }
}

/// A value between double quotes, unescaped.
pub open spec fn quoted(s: Seq<char>) -> Seq<char> {
    seq!['"'] + s + seq!['"']
}

/// The text that follows the command name: each argument after one space.
pub open spec fn params_text(p: ParamsView) -> Seq<char> {
    match p {
        ParamsView::Str(a) => seq![' '] + quoted(a),
        ParamsView::StrStr(a, b) => seq![' '] + quoted(a) + seq![' '] + quoted(b),
        ParamsView::NumStr(n, a) => seq![' '] + decimal(n as nat) + seq![' '] + quoted(a),
    }
}

/// The wire line of a command: its name, its arguments, a newline.
pub open spec fn cmdline(name: Seq<char>, arg: Option<ParamsView>) -> Seq<char> {
    match arg {
        None => name + seq!['\n'],
        Some(p) => name + params_text(p) + seq!['\n'],
    }
}

/// `"0"` or `"1"`: how the protocol writes a flag.
pub open spec fn flag_text(b: bool) -> Seq<char> {
    if b { seq!['1'] } else { seq!['0'] }
}

pub open spec fn opt_str_param(a: Option<&str>) -> Option<ParamsView> {
    match a {
        Some(s) => Some(ParamsView::Str(s@)),
        None => None,
    }
}

fn str_param(a: &str) -> (r: MpdCmdParameters)
    ensures
        r@ == ParamsView::Str(a@),
{
    MpdCmdParameters::String(a.to_string())
}

fn opt_param(a: Option<&str>) -> (r: Option<MpdCmdParameters>)
    ensures
        opt_params_view(r) == opt_str_param(a),
{
    match a {
        Some(s) => Some(str_param(s)),
        None => None,
    }
}

fn num_param(n: u32) -> (r: MpdCmdParameters)
    ensures
        r@ == ParamsView::Str(decimal(n as nat)),
{
    MpdCmdParameters::String(u32_to_decimal(n))
}

fn flag_param(b: bool) -> (r: MpdCmdParameters)
    ensures
        r@ == ParamsView::Str(flag_text(b)),
{
    let r = num_param(if b { 1 } else { 0 });
    proof {
        if b {
            assert(decimal(1) == seq!['1']);
        } else {
            assert(decimal(0) == seq!['0']);
        }
    }
    r
}

/// Appends `"a"` to `out`.
fn push_quoted(out: &mut String, a: &String)
    ensures
        final(out)@ == old(out)@ + quoted(a@),
{
    proof { reveal_strlit("\""); }
    out.append("\"");
    out.append(a.as_str());
    out.append("\"");
    assert(final(out)@ =~= old(out)@ + quoted(a@));
}

/// Builds the wire line of a command from its name and arguments.
pub fn encode_cmdline(name: &str, arg: Option<MpdCmdParameters>) -> (r: String)
    ensures
        r@ == cmdline(name@, opt_params_view(arg)),
{
    proof {
        reveal_strlit(" ");
        reveal_strlit("\n");
    }
    let mut s = name.to_string();
    match arg {
        Some(MpdCmdParameters::String(a)) => {
            s.append(" ");
            push_quoted(&mut s, &a);
        },
        Some(MpdCmdParameters::StringAndString(a, b)) => {
            s.append(" ");
            push_quoted(&mut s, &a);
            s.append(" ");
            push_quoted(&mut s, &b);
        },
        Some(MpdCmdParameters::U32AndString(n, a)) => {
            s.append(" ");
            crate::text::push_decimal(&mut s, n);
            s.append(" ");
            push_quoted(&mut s, &a);
        },
        None => {},
    }
    s.append("\n");
    assert(s@ =~= cmdline(name@, opt_params_view(arg)));
    s
}

pub trait MpdCmd {
    /// The command name
    const CMD: &'static str;

    /// The response handler for this command
    type Handler: ResponseHandler;

    /// The arguments of this command, as values.
    spec fn spec_argument(&self) -> Option<ParamsView>;

    /// Optionally returns the commands argument as a String
    fn argument(&self) -> (r: Option<MpdCmdParameters>)
        ensures
            opt_params_view(r) == self.spec_argument(),
    ;

    /// Creates the MPD command line for this command
    fn to_cmdline(&self) -> (r: String)
        ensures
            r@ == cmdline(Self::CMD@, self.spec_argument()),
    {
        encode_cmdline(Self::CMD, self.argument())
    }
}

impl<'a> MpdCmd for ListallInfo<'a> {
    const CMD: &'static str = "listallinfo";

    type Handler = MixedResponseResponse;

    open spec fn spec_argument(&self) -> Option<ParamsView> {
        opt_str_param(self.0)
    }

    fn argument(&self) -> (r: Option<MpdCmdParameters>) {
        opt_param(self.0)
    }
}

impl<'a, 'b> MpdCmd for QueueAdd<'a, 'b> {
    const CMD: &'static str = "add";

    type Handler = OkResponse;

    open spec fn spec_argument(&self) -> Option<ParamsView> {
        match self.1 {
            Some(p) => Some(ParamsView::StrStr(self.0@, p@)),
            None => Some(ParamsView::Str(self.0@)),
        }
    }

    fn argument(&self) -> (r: Option<MpdCmdParameters>) {
        match self.1 {
            Some(p) => Some(MpdCmdParameters::StringAndString(self.0.to_string(), p.to_string())),
            None => Some(str_param(self.0)),
        }
    }
}

impl<'a> MpdCmd for QueueMoveId<'a> {
    const CMD: &'static str = "moveid";

    type Handler = OkResponse;

    open spec fn spec_argument(&self) -> Option<ParamsView> {
        Some(ParamsView::NumStr(self.0, self.1@))
    }

    fn argument(&self) -> (r: Option<MpdCmdParameters>) {
        Some(MpdCmdParameters::U32AndString(self.0, self.1.to_string()))
    }
}

impl MpdCmd for QueueDeleteId {
    const CMD: &'static str = "deleteid";

    type Handler = OkResponse;

    open spec fn spec_argument(&self) -> Option<ParamsView> {
        Some(ParamsView::Str(decimal(self.0 as nat)))
    }

    fn argument(&self) -> (r: Option<MpdCmdParameters>) {
        Some(num_param(self.0))
    }
}

impl<'a> MpdCmd for Listall<'a> {
    const CMD: &'static str = "listall";

    type Handler = RespMapResponse<ListallResponse>;

    open spec fn spec_argument(&self) -> Option<ParamsView> {
        opt_str_param(self.0)
    }

    fn argument(&self) -> (r: Option<MpdCmdParameters>) {
        opt_param(self.0)
    }
}

impl<'a> MpdCmd for Update<'a> {
    const CMD: &'static str = "update";

    type Handler = RespMapResponse<DatabaseVersion>;

    open spec fn spec_argument(&self) -> Option<ParamsView> {
        opt_str_param(self.0)
    }

    fn argument(&self) -> (r: Option<MpdCmdParameters>) {
        opt_param(self.0)
    }
}

impl<'a> MpdCmd for Rescan<'a> {
    const CMD: &'static str = "rescan";

    type Handler = RespMapResponse<DatabaseVersion>;

    open spec fn spec_argument(&self) -> Option<ParamsView> {
        opt_str_param(self.0)
    }

    fn argument(&self) -> (r: Option<MpdCmdParameters>) {
        opt_param(self.0)
    }
}

impl<'a> MpdCmd for Search<'a> {
    const CMD: &'static str = "search";

    type Handler = Tracks;

    open spec fn spec_argument(&self) -> Option<ParamsView> {
        opt_str_param(self.0)
    }

    fn argument(&self) -> (r: Option<MpdCmdParameters>) {
        opt_param(self.0)
    }
}

impl MpdCmd for PlaylistInfo {
    const CMD: &'static str = "playlistinfo";

    type Handler = Tracks;

    open spec fn spec_argument(&self) -> Option<ParamsView> {
        None
    }

    fn argument(&self) -> (r: Option<MpdCmdParameters>) {
        None
    }
}

impl MpdCmd for Repeat {
    const CMD: &'static str = "repeat";

    type Handler = OkResponse;

    open spec fn spec_argument(&self) -> Option<ParamsView> {
        Some(ParamsView::Str(flag_text(self.0)))
    }

    fn argument(&self) -> (r: Option<MpdCmdParameters>) {
        Some(flag_param(self.0))
    }
}

impl MpdCmd for Random {
    const CMD: &'static str = "random";

    type Handler = OkResponse;

    open spec fn spec_argument(&self) -> Option<ParamsView> {
        Some(ParamsView::Str(flag_text(self.0)))
    }

    fn argument(&self) -> (r: Option<MpdCmdParameters>) {
        Some(flag_param(self.0))
    }
}

impl MpdCmd for Consume {
    const CMD: &'static str = "consume";

    type Handler = OkResponse;

    open spec fn spec_argument(&self) -> Option<ParamsView> {
        Some(ParamsView::Str(flag_text(self.0)))
    }

    fn argument(&self) -> (r: Option<MpdCmdParameters>) {
        Some(flag_param(self.0))
    }
}

impl MpdCmd for PlayPause {
    const CMD: &'static str = "pause";

    type Handler = OkResponse;

    open spec fn spec_argument(&self) -> Option<ParamsView> {
        Some(ParamsView::Str(flag_text(self.0)))
    }

    fn argument(&self) -> (r: Option<MpdCmdParameters>) {
        Some(flag_param(self.0))
    }
}

impl MpdCmd for Next {
    const CMD: &'static str = "next";

    type Handler = OkResponse;

    open spec fn spec_argument(&self) -> Option<ParamsView> {
        None
    }

    fn argument(&self) -> (r: Option<MpdCmdParameters>) {
        None
    }
}

impl MpdCmd for Prev {
    const CMD: &'static str = "prev";

    type Handler = OkResponse;

    open spec fn spec_argument(&self) -> Option<ParamsView> {
        None
    }

    fn argument(&self) -> (r: Option<MpdCmdParameters>) {
        None
    }
}

impl MpdCmd for QueueClear {
    const CMD: &'static str = "clear";

    type Handler = OkResponse;

    open spec fn spec_argument(&self) -> Option<ParamsView> {
        None
    }

    fn argument(&self) -> (r: Option<MpdCmdParameters>) {
        None
    }
}

impl MpdCmd for NoIdle {
    const CMD: &'static str = "noidle";

    type Handler = OkResponse;

    open spec fn spec_argument(&self) -> Option<ParamsView> {
        None
    }

    fn argument(&self) -> (r: Option<MpdCmdParameters>) {
        None
    }
}

impl MpdCmd for Idle {
    const CMD: &'static str = "idle";

    type Handler = RespMapResponse<entity::Subsystem>;

    open spec fn spec_argument(&self) -> Option<ParamsView> {
        None
    }

    fn argument(&self) -> (r: Option<MpdCmdParameters>) {
        None
    }
}

impl MpdCmd for Stats {
    const CMD: &'static str = "stats";

    type Handler = RespMapResponse<entity::Stats>;

    open spec fn spec_argument(&self) -> Option<ParamsView> {
        None
    }

    fn argument(&self) -> (r: Option<MpdCmdParameters>) {
        None
    }
}

impl MpdCmd for Status {
    const CMD: &'static str = "status";

    type Handler = RespMapResponse<entity::Status>;

    open spec fn spec_argument(&self) -> Option<ParamsView> {
        None
    }

    fn argument(&self) -> (r: Option<MpdCmdParameters>) {
        None
    }
}

impl MpdCmd for Setvol {
    const CMD: &'static str = "setvol";

    type Handler = OkResponse;

    open spec fn spec_argument(&self) -> Option<ParamsView> {
        Some(ParamsView::Str(decimal(self.0 as nat)))
    }

    fn argument(&self) -> (r: Option<MpdCmdParameters>) {
        Some(num_param(self.0))
    }
}

impl MpdCmd for Stop {
    const CMD: &'static str = "stop";

    type Handler = OkResponse;

    open spec fn spec_argument(&self) -> Option<ParamsView> {
        None
    }

    fn argument(&self) -> (r: Option<MpdCmdParameters>) {
        None
    }
}

impl MpdCmd for PlayId {
    const CMD: &'static str = "playid";

    type Handler = OkResponse;

    open spec fn spec_argument(&self) -> Option<ParamsView> {
        Some(ParamsView::Str(decimal(self.0 as nat)))
    }

    fn argument(&self) -> (r: Option<MpdCmdParameters>) {
        Some(num_param(self.0))
    }
}

impl MpdCmd for PlayAtPosition {
    const CMD: &'static str = "play";

    type Handler = OkResponse;

    open spec fn spec_argument(&self) -> Option<ParamsView> {
        Some(ParamsView::Str(decimal(self.0 as nat)))
    }

    fn argument(&self) -> (r: Option<MpdCmdParameters>) {
        Some(num_param(self.0))
    }
}

} // verus!
