//! The command model and its wire grammar.
//!
//! One command travels per datagram, as UTF-8 text (the verbs and the port
//! argument are plain ASCII; a resource or target argument is carried as the
//! raw bytes that arrived). The grammar is a verb, optionally followed by one
//! space and one argument: `LIST` and `SHUTDOWN` take none, `FETCH`, `INIT`,
//! `START` and `STOP` take the rest of the frame verbatim, and `CONFIG` takes
//! a decimal port to bind future sockets to. A frame that fits no rule yields
//! a `DecodeError`, which is answered with an error response and never aborts
//! the receive loop.
use vstd::prelude::*;

use vstd::slice::slice_to_vec;

use crate::web::{Addr, WebConfig};

verus! {

/// The ASCII space that separates a verb from its argument.
pub const SP: u8 = 32;

/// The spelling of `LIST`, as bytes.
pub open spec fn verb_list() -> Seq<u8> {
    seq![76u8, 73u8, 83u8, 84u8]
}

/// The spelling of `FETCH`, as bytes.
pub open spec fn verb_fetch() -> Seq<u8> {
    seq![70u8, 69u8, 84u8, 67u8, 72u8]
}

/// The spelling of `CONFIG`, as bytes.
pub open spec fn verb_config() -> Seq<u8> {
    seq![67u8, 79u8, 78u8, 70u8, 73u8, 71u8]
}

/// The spelling of `INIT`, as bytes.
pub open spec fn verb_init() -> Seq<u8> {
    seq![73u8, 78u8, 73u8, 84u8]
}

/// The spelling of `START`, as bytes.
pub open spec fn verb_start() -> Seq<u8> {
    seq![83u8, 84u8, 65u8, 82u8, 84u8]
}

/// The spelling of `STOP`, as bytes.
pub open spec fn verb_stop() -> Seq<u8> {
    seq![83u8, 84u8, 79u8, 80u8]
}

/// The spelling of `SHUTDOWN`, as bytes.
pub open spec fn verb_shutdown() -> Seq<u8> {
    seq![83u8, 72u8, 85u8, 84u8, 68u8, 79u8, 87u8, 78u8]
}

fn vb_list() -> (v: Vec<u8>)
    ensures
        v@ == verb_list(),
{
    let mut v: Vec<u8> = Vec::new();
    v.push(76);
    v.push(73);
    v.push(83);
    v.push(84);
    proof {
        assert(v@ =~= verb_list());
    }
    v
}

fn vb_fetch() -> (v: Vec<u8>)
    ensures
        v@ == verb_fetch(),
{
    let mut v: Vec<u8> = Vec::new();
    v.push(70);
    v.push(69);
    v.push(84);
    v.push(67);
    v.push(72);
    proof {
        assert(v@ =~= verb_fetch());
    }
    v
}

fn vb_config() -> (v: Vec<u8>)
    ensures
        v@ == verb_config(),
{
    let mut v: Vec<u8> = Vec::new();
    v.push(67);
    v.push(79);
    v.push(78);
    v.push(70);
    v.push(73);
    v.push(71);
    proof {
        assert(v@ =~= verb_config());
    }
    v
}

fn vb_init() -> (v: Vec<u8>)
    ensures
        v@ == verb_init(),
{
    let mut v: Vec<u8> = Vec::new();
    v.push(73);
    v.push(78);
    v.push(73);
    v.push(84);
    proof {
        assert(v@ =~= verb_init());
    }
    v
}

fn vb_start() -> (v: Vec<u8>)
    ensures
        v@ == verb_start(),
{
    let mut v: Vec<u8> = Vec::new();
    v.push(83);
    v.push(84);
    v.push(65);
    v.push(82);
    v.push(84);
    proof {
        assert(v@ =~= verb_start());
    }
    v
}

fn vb_stop() -> (v: Vec<u8>)
    ensures
        v@ == verb_stop(),
{
    let mut v: Vec<u8> = Vec::new();
    v.push(83);
    v.push(84);
    v.push(79);
    v.push(80);
    proof {
        assert(v@ =~= verb_stop());
    }
    v
}

fn vb_shutdown() -> (v: Vec<u8>)
    ensures
        v@ == verb_shutdown(),
{
    let mut v: Vec<u8> = Vec::new();
    v.push(83);
    v.push(72);
    v.push(85);
    v.push(84);
    v.push(68);
    v.push(79);
    v.push(87);
    v.push(78);
    proof {
        assert(v@ =~= verb_shutdown());
    }
    v
}

/// A lifecycle directive for a named service, or the global shutdown.
#[derive(Debug, PartialEq, Eq)]
pub enum Signal {
    /// Create or reset the service's entry, stopped.
    Init(Vec<u8>),
    /// Mark the service running and drive its start hook.
    Start(Vec<u8>),
    /// Mark the service stopped and drive its stop hook.
    Stop(Vec<u8>),
    /// Terminate the whole sentinel, irreversibly.
    Shutdown,
}

/// The mathematical shape of a `Signal`: the target as a byte sequence.
pub enum Sig {
    Init(Seq<u8>),
    Start(Seq<u8>),
    Stop(Seq<u8>),
    Shutdown,
}

impl View for Signal {
    type V = Sig;

    open spec fn view(&self) -> Sig {
        match self {
            Signal::Init(t) => Sig::Init(t@),
            Signal::Start(t) => Sig::Start(t@),
            Signal::Stop(t) => Sig::Stop(t@),
            Signal::Shutdown => Sig::Shutdown,
        }
    }
}

/// A control directive decoded from one frame.
#[derive(Debug, PartialEq, Eq)]
pub enum WebCommand {
    /// Report every service and its status.
    List,
    /// Hand the resource to the HTTP collaborator, uninterpreted.
    Fetch(Vec<u8>),
    /// Store new bind parameters for future sockets.
    Config(WebConfig),
    /// Drive a lifecycle transition.
    Signal(Signal),
}

/// The mathematical shape of a `WebCommand`.
pub enum Cmd {
    List,
    Fetch(Seq<u8>),
    Config(WebConfig),
    Signal(Sig),
}

impl View for WebCommand {
    type V = Cmd;

    open spec fn view(&self) -> Cmd {
        match self {
            WebCommand::List => Cmd::List,
            WebCommand::Fetch(r) => Cmd::Fetch(r@),
            WebCommand::Config(c) => Cmd::Config(*c),
            WebCommand::Signal(s) => Cmd::Signal(s@),
        }
    }
}

/// Why a frame failed to parse. Each variant names exactly one failure of the
/// grammar; a failed frame costs one request/response cycle and nothing more.
#[derive(Clone, Copy, Debug, PartialEq, Eq, Structural)]
pub enum DecodeError {
    /// The frame starts with no known verb.
    UnknownVerb,
    /// The verb needs an argument and none (or an empty one) followed.
    MissingArgument,
    /// The verb takes no argument but one followed.
    UnexpectedArgument,
    /// The argument is present but malformed (a `CONFIG` port that is not
    /// a decimal number up to 65535).
    BadArgument,
}

/// The frame consists of the verb `v`, one space, and a (possibly empty)
/// argument.
pub open spec fn verb_with_arg(b: Seq<u8>, v: Seq<u8>) -> bool {
    b.len() > v.len() && b.take(v.len() as int) == v && b[v.len() as int] == SP
}

/// The argument part of such a frame: everything after the space, verbatim.
pub open spec fn arg_of(b: Seq<u8>, v: Seq<u8>) -> Seq<u8> {
    b.skip(v.len() as int + 1)
}

/// ASCII `'0'` through `'9'`.
pub open spec fn is_ascii_digit(c: u8) -> bool {
    48 <= c <= 57
}

pub open spec fn all_digits(a: Seq<u8>) -> bool {
    forall|i: int| 0 <= i < a.len() ==> is_ascii_digit(#[trigger] a[i])
}

/// The value of a digit string read in base ten.
pub open spec fn dec_val(a: Seq<u8>) -> int
    decreases a.len(),
{
    if a.len() == 0 {
        0
    } else {
        10 * dec_val(a.drop_last()) + (a.last() - 48)
    }
}

/// A valid `CONFIG` argument: a non-empty digit string whose value fits a
/// port number. Leading zeros are accepted.
pub open spec fn is_port(a: Seq<u8>) -> bool {
    a.len() > 0 && all_digits(a) && dec_val(a) <= 65535
}

/// What one frame parses to: exactly one command or exactly one error, for
/// every byte sequence.
pub open spec fn parse_spec(b: Seq<u8>) -> Result<Cmd, DecodeError> {
    if b == verb_list() {
        Ok(Cmd::List)
    } else if b == verb_shutdown() {
        Ok(Cmd::Signal(Sig::Shutdown))
    } else if verb_with_arg(b, verb_list()) || verb_with_arg(b, verb_shutdown()) {
        Err(DecodeError::UnexpectedArgument)
    } else if b == verb_fetch() || b == verb_config() || b == verb_init() || b == verb_start() || b
        == verb_stop() {
        Err(DecodeError::MissingArgument)
    } else if verb_with_arg(b, verb_fetch()) {
        let a = arg_of(b, verb_fetch());
        if a.len() == 0 {
            Err(DecodeError::MissingArgument)
        } else {
            Ok(Cmd::Fetch(a))
        }
    } else if verb_with_arg(b, verb_config()) {
        let a = arg_of(b, verb_config());
        if a.len() == 0 {
            Err(DecodeError::MissingArgument)
        } else if is_port(a) {
            Ok(Cmd::Config(WebConfig { socket: Addr { ip: 0, port: dec_val(a) as u16 } }))
        } else {
            Err(DecodeError::BadArgument)
        }
    } else if verb_with_arg(b, verb_init()) {
        let a = arg_of(b, verb_init());
        if a.len() == 0 {
            Err(DecodeError::MissingArgument)
        } else {
            Ok(Cmd::Signal(Sig::Init(a)))
        }
    } else if verb_with_arg(b, verb_start()) {
        let a = arg_of(b, verb_start());
        if a.len() == 0 {
            Err(DecodeError::MissingArgument)
        } else {
            Ok(Cmd::Signal(Sig::Start(a)))
        }
    } else if verb_with_arg(b, verb_stop()) {
        let a = arg_of(b, verb_stop());
        if a.len() == 0 {
            Err(DecodeError::MissingArgument)
        } else {
            Ok(Cmd::Signal(Sig::Stop(a)))
        }
    } else {
        Err(DecodeError::UnknownVerb)
    }
}

pub(crate) fn eq_bytes(a: &[u8], b: &[u8]) -> (r: bool)
    ensures
        r == (a@ == b@),
{
    if a.len() != b.len() {
        return false;
    }
    let n = a.len();
    let mut i: usize = 0;
    while i < n
        invariant
            n == a@.len(),
            n == b@.len(),
            0 <= i <= n,
            forall|j: int| 0 <= j < i ==> a@[j] == b@[j],
        decreases n - i,
    {
        if a[i] != b[i] {
            return false;
        }
        i = i + 1;
    }
    proof {
        assert(a@ =~= b@);
    }
    true
}

fn with_arg(data: &[u8], v: &[u8]) -> (r: bool)
    ensures
        r == verb_with_arg(data@, v@),
{
    if data.len() <= v.len() {
        return false;
    }
    if data[v.len()] != SP {
        return false;
    }
    let prefix = &data[0..v.len()];
    proof {
        assert(prefix@ =~= data@.take(v@.len() as int));
    }
    eq_bytes(prefix, v)
}

proof fn lemma_dec_val_nonneg(a: Seq<u8>)
    requires
        all_digits(a),
    ensures
        dec_val(a) >= 0,
    decreases a.len(),
{
    if a.len() > 0 {
        assert forall|i: int| 0 <= i < a.drop_last().len() implies is_ascii_digit(
            #[trigger] a.drop_last()[i],
        ) by {
            assert(a.drop_last()[i] == a[i]);
        }
        lemma_dec_val_nonneg(a.drop_last());
        assert(is_ascii_digit(a.last()));
    }
}

/// Reading more digits never shrinks the value.
proof fn lemma_dec_val_prefix_mono(a: Seq<u8>, i: int, j: int)
    requires
        0 <= i <= j <= a.len(),
        all_digits(a),
    ensures
        dec_val(a.take(i)) <= dec_val(a.take(j)),
    decreases j - i,
{
    if i < j {
        lemma_dec_val_prefix_mono(a, i, j - 1);
        assert(a.take(j).drop_last() =~= a.take(j - 1));
        assert(a.take(j).last() == a[j - 1]);
        assert forall|k: int| 0 <= k < a.take(j - 1).len() implies is_ascii_digit(
            #[trigger] a.take(j - 1)[k],
        ) by {
            assert(a.take(j - 1)[k] == a[k]);
        }
        lemma_dec_val_nonneg(a.take(j - 1));
        assert(is_ascii_digit(a[j - 1]));
    }
}

/// Read a decimal port number: succeeds exactly on the arguments `is_port`
/// accepts, and then returns their value.
fn parse_port(a: &[u8]) -> (r: Option<u16>)
    ensures
        match r {
            Some(p) => is_port(a@) && p == dec_val(a@),
            None => !is_port(a@),
        },
{
    let n = a.len();
    if n == 0 {
        return None;
    }
    let mut i: usize = 0;
    let mut acc: u32 = 0;
    while i < n
        invariant
            n == a@.len(),
            0 <= i <= n,
            all_digits(a@.take(i as int)),
            acc == dec_val(a@.take(i as int)),
            acc <= 65535,
        decreases n - i,
    {
        let c = a[i];
        if c < 48 || c > 57 {
            assert(!all_digits(a@));
            return None;
        }
        proof {
            assert(a@.take(i + 1).drop_last() =~= a@.take(i as int));
            assert(a@.take(i + 1).last() == a@[i as int]);
            assert forall|j: int| 0 <= j < i + 1 implies is_ascii_digit(
                #[trigger] a@.take(i + 1)[j],
            ) by {
                if j < i {
                    assert(a@.take(i + 1)[j] == a@.take(i as int)[j]);
                } else {
                    assert(a@.take(i + 1)[j] == a@[i as int]);
                }
            }
        }
        let d: u32 = (c - 48) as u32;
        let next: u32 = acc * 10 + d;
        if next > 65535 {
            proof {
                if is_port(a@) {
                    lemma_dec_val_prefix_mono(a@, i + 1, n as int);
                    assert(a@.take(n as int) =~= a@);
                }
            }
            return None;
        }
        acc = next;
        i = i + 1;
    }
    proof {
        assert(a@.take(n as int) =~= a@);
    }
    Some(acc as u16)
}

/// Parse one frame into a command, or say exactly why it is malformed. The
/// result is, case by case, the one `parse_spec` gives for these bytes.
pub fn parse_command(data: &[u8]) -> (r: Result<WebCommand, DecodeError>)
    ensures
        r matches Ok(c) ==> parse_spec(data@) == Ok::<Cmd, DecodeError>(c@),
        r matches Err(e) ==> parse_spec(data@) == Err::<Cmd, DecodeError>(e),
{
    let lst = vb_list();
    let sht = vb_shutdown();
    let fch = vb_fetch();
    let cfg = vb_config();
    let ini = vb_init();
    let sta = vb_start();
    let stp = vb_stop();
    if eq_bytes(data, lst.as_slice()) {
        return Ok(WebCommand::List);
    }
    if eq_bytes(data, sht.as_slice()) {
        return Ok(WebCommand::Signal(Signal::Shutdown));
    }
    if with_arg(data, lst.as_slice()) || with_arg(data, sht.as_slice()) {
        return Err(DecodeError::UnexpectedArgument);
    }
    if eq_bytes(data, fch.as_slice()) || eq_bytes(data, cfg.as_slice()) || eq_bytes(
        data,
        ini.as_slice(),
    ) || eq_bytes(data, sta.as_slice()) || eq_bytes(data, stp.as_slice()) {
        return Err(DecodeError::MissingArgument);
    }
    if with_arg(data, fch.as_slice()) {
        let arg = &data[fch.len() + 1..data.len()];
        proof {
            assert(arg@ =~= arg_of(data@, verb_fetch()));
        }
        if arg.len() == 0 {
            return Err(DecodeError::MissingArgument);
        }
        return Ok(WebCommand::Fetch(slice_to_vec(arg)));
    }
    if with_arg(data, cfg.as_slice()) {
        let arg = &data[cfg.len() + 1..data.len()];
        proof {
            assert(arg@ =~= arg_of(data@, verb_config()));
        }
        if arg.len() == 0 {
            return Err(DecodeError::MissingArgument);
        }
        return match parse_port(arg) {
            Some(p) => Ok(WebCommand::Config(WebConfig { socket: Addr { ip: 0, port: p } })),
            None => Err(DecodeError::BadArgument),
        };
    }
    if with_arg(data, ini.as_slice()) {
        let arg = &data[ini.len() + 1..data.len()];
        proof {
            assert(arg@ =~= arg_of(data@, verb_init()));
        }
        if arg.len() == 0 {
            return Err(DecodeError::MissingArgument);
        }
        return Ok(WebCommand::Signal(Signal::Init(slice_to_vec(arg))));
    }
    if with_arg(data, sta.as_slice()) {
        let arg = &data[sta.len() + 1..data.len()];
        proof {
            assert(arg@ =~= arg_of(data@, verb_start()));
        }
        if arg.len() == 0 {
            return Err(DecodeError::MissingArgument);
        }
        return Ok(WebCommand::Signal(Signal::Start(slice_to_vec(arg))));
    }
    if with_arg(data, stp.as_slice()) {
        let arg = &data[stp.len() + 1..data.len()];
        proof {
            assert(arg@ =~= arg_of(data@, verb_stop()));
        }
        if arg.len() == 0 {
            return Err(DecodeError::MissingArgument);
        }
        return Ok(WebCommand::Signal(Signal::Stop(slice_to_vec(arg))));
    }
    Err(DecodeError::UnknownVerb)
}

} // verus!
