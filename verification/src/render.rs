//! Rendering responses into wire text.
//!
//! Every reply is one line of ASCII in one datagram: `OK`, optionally
//! followed by one space and a payload, or `ERR`, one space, and a reason.
//! The table snapshot renders as `OK` followed by one ` name=running` or
//! ` name=stopped` entry per service; an unknown service renders as
//! `ERR unknown_service name`; a dead sentinel as `ERR terminated`; a frame
//! that would not parse is answered with `ERR decode_error` (the consistent
//! choice here: malformed frames are answered, not dropped).
use vstd::prelude::*;

use crate::web::{ApplyError, ErrView, Resp, Response, ServiceStatus, Svc};

verus! {

/// The bytes of `OK`.
pub open spec fn txt_ok() -> Seq<u8> {
    seq![79u8, 75u8]
}

/// The bytes of `ERR`.
pub open spec fn txt_err() -> Seq<u8> {
    seq![69u8, 82u8, 82u8]
}

/// The bytes of `running`.
pub open spec fn txt_running() -> Seq<u8> {
    seq![114u8, 117u8, 110u8, 110u8, 105u8, 110u8, 103u8]
}

/// The bytes of `stopped`.
pub open spec fn txt_stopped() -> Seq<u8> {
    seq![115u8, 116u8, 111u8, 112u8, 112u8, 101u8, 100u8]
}

/// The bytes of `unknown_service`.
pub open spec fn txt_unknown_service() -> Seq<u8> {
    seq![
        117u8,
        110u8,
        107u8,
        110u8,
        111u8,
        119u8,
        110u8,
        95u8,
        115u8,
        101u8,
        114u8,
        118u8,
        105u8,
        99u8,
        101u8,
    ]
}

/// The bytes of `terminated`.
pub open spec fn txt_terminated() -> Seq<u8> {
    seq![116u8, 101u8, 114u8, 109u8, 105u8, 110u8, 97u8, 116u8, 101u8, 100u8]
}

/// The bytes of `collaborator_error`.
pub open spec fn txt_collaborator_error() -> Seq<u8> {
    seq![
        99u8,
        111u8,
        108u8,
        108u8,
        97u8,
        98u8,
        111u8,
        114u8,
        97u8,
        116u8,
        111u8,
        114u8,
        95u8,
        101u8,
        114u8,
        114u8,
        111u8,
        114u8,
    ]
}

/// The bytes of `decode_error`.
pub open spec fn txt_decode_error() -> Seq<u8> {
    seq![100u8, 101u8, 99u8, 111u8, 100u8, 101u8, 95u8, 101u8, 114u8, 114u8, 111u8, 114u8]
}

/// One table line fragment: ` name=running` or ` name=stopped`.
pub open spec fn render_entry(s: Svc) -> Seq<u8> {
    seq![32u8] + s.id + seq![61u8] + (if s.running {
        txt_running()
    } else {
        txt_stopped()
    })
}

/// The whole table, one fragment per entry, in table order.
pub open spec fn render_table(t: Seq<Svc>) -> Seq<u8>
    decreases t.len(),
{
    if t.len() == 0 {
        Seq::<u8>::empty()
    } else {
        render_table(t.drop_last()) + render_entry(t.last())
    }
}

/// The wire text of a refusal.
pub open spec fn err_render_spec(e: ErrView) -> Seq<u8> {
    match e {
        ErrView::UnknownService(id) => txt_err() + seq![32u8] + txt_unknown_service() + seq![32u8]
            + id,
        ErrView::Terminated => txt_err() + seq![32u8] + txt_terminated(),
    }
}

/// The wire text answering a frame that would not parse.
pub open spec fn decode_err_render() -> Seq<u8> {
    txt_err() + seq![32u8] + txt_decode_error()
}

/// The wire text wrapping what the HTTP collaborator returned: its payload
/// after `OK`, or its reason after `ERR collaborator_error`.
pub open spec fn fetch_render_spec(ok: bool, body: Seq<u8>) -> Seq<u8> {
    if ok {
        if body.len() == 0 {
            txt_ok()
        } else {
            txt_ok() + seq![32u8] + body
        }
    } else {
        if body.len() == 0 {
            txt_err() + seq![32u8] + txt_collaborator_error()
        } else {
            txt_err() + seq![32u8] + txt_collaborator_error() + seq![32u8] + body
        }
    }
}

/// What each response renders to. Only a fetch delegation has no text yet:
/// its answer exists once the collaborator has run, see `render_fetch_result`.
pub open spec fn render_spec(r: Resp) -> Option<Seq<u8>> {
    match r {
        Resp::Table(t) => Some(txt_ok() + render_table(t)),
        Resp::FetchRequested(_) => None,
        Resp::Applied(_) => Some(txt_ok()),
        Resp::Failed(e) => Some(err_render_spec(e)),
    }
}

/// Append a byte string.
fn extend_bytes(out: &mut Vec<u8>, add: &[u8])
    ensures
        final(out)@ == old(out)@ + add@,
{
    let mut i: usize = 0;
    while i < add.len()
        invariant
            0 <= i <= add@.len(),
            out@ == old(out)@ + add@.take(i as int),
        decreases add@.len() - i,
    {
        out.push(add[i]);
        proof {
            assert(old(out)@ + add@.take(i as int + 1) =~= (old(out)@ + add@.take(i as int)).push(
                add@[i as int],
            ));
        }
        i = i + 1;
    }
    proof {
        assert(old(out)@ + add@.take(add@.len() as int) =~= old(out)@ + add@);
    }
}

fn push_ok(out: &mut Vec<u8>)
    ensures
        final(out)@ == old(out)@ + txt_ok(),
{
    out.push(79);
    out.push(75);
    proof {
        assert(out@ =~= old(out)@ + txt_ok());
    }
}

fn push_err_space(out: &mut Vec<u8>)
    ensures
        final(out)@ == old(out)@ + txt_err() + seq![32u8],
{
    out.push(69);
    out.push(82);
    out.push(82);
    out.push(32);
    proof {
        assert(out@ =~= old(out)@ + txt_err() + seq![32u8]);
    }
}

fn push_running(out: &mut Vec<u8>)
    ensures
        final(out)@ == old(out)@ + txt_running(),
{
    out.push(114);
    out.push(117);
    out.push(110);
    out.push(110);
    out.push(105);
    out.push(110);
    out.push(103);
    proof {
        assert(out@ =~= old(out)@ + txt_running());
    }
}

fn push_stopped(out: &mut Vec<u8>)
    ensures
        final(out)@ == old(out)@ + txt_stopped(),
{
    out.push(115);
    out.push(116);
    out.push(111);
    out.push(112);
    out.push(112);
    out.push(101);
    out.push(100);
    proof {
        assert(out@ =~= old(out)@ + txt_stopped());
    }
}

fn push_unknown_service(out: &mut Vec<u8>)
    ensures
        final(out)@ == old(out)@ + txt_unknown_service(),
{
    out.push(117);
    out.push(110);
    out.push(107);
    out.push(110);
    out.push(111);
    out.push(119);
    out.push(110);
    out.push(95);
    out.push(115);
    out.push(101);
    out.push(114);
    out.push(118);
    out.push(105);
    out.push(99);
    out.push(101);
    proof {
        assert(out@ =~= old(out)@ + txt_unknown_service());
    }
}

fn push_terminated(out: &mut Vec<u8>)
    ensures
        final(out)@ == old(out)@ + txt_terminated(),
{
    out.push(116);
    out.push(101);
    out.push(114);
    out.push(109);
    out.push(105);
    out.push(110);
    out.push(97);
    out.push(116);
    out.push(101);
    out.push(100);
    proof {
        assert(out@ =~= old(out)@ + txt_terminated());
    }
}

fn push_collaborator_error(out: &mut Vec<u8>)
    ensures
        final(out)@ == old(out)@ + txt_collaborator_error(),
{
    out.push(99);
    out.push(111);
    out.push(108);
    out.push(108);
    out.push(97);
    out.push(98);
    out.push(111);
    out.push(114);
    out.push(97);
    out.push(116);
    out.push(111);
    out.push(114);
    out.push(95);
    out.push(101);
    out.push(114);
    out.push(114);
    out.push(111);
    out.push(114);
    proof {
        assert(out@ =~= old(out)@ + txt_collaborator_error());
    }
}

fn push_decode_error(out: &mut Vec<u8>)
    ensures
        final(out)@ == old(out)@ + txt_decode_error(),
{
    out.push(100);
    out.push(101);
    out.push(99);
    out.push(111);
    out.push(100);
    out.push(101);
    out.push(95);
    out.push(101);
    out.push(114);
    out.push(114);
    out.push(111);
    out.push(114);
    proof {
        assert(out@ =~= old(out)@ + txt_decode_error());
    }
}

/// Render one table entry's fragment after what `out` already holds.
fn push_entry(out: &mut Vec<u8>, s: &ServiceStatus)
    ensures
        final(out)@ == old(out)@ + render_entry(s@),
{
    out.push(32);
    extend_bytes(out, s.id.as_slice());
    out.push(61);
    if s.running {
        push_running(out);
    } else {
        push_stopped(out);
    }
    proof {
        assert(out@ =~= old(out)@ + render_entry(s@));
    }
}

/// The wire text of a refusal: `ERR unknown_service name` or
/// `ERR terminated`.
pub fn render_failed(e: &ApplyError) -> (r: Vec<u8>)
    ensures
        r@ == err_render_spec(e@),
{
    let mut out: Vec<u8> = Vec::new();
    push_err_space(&mut out);
    match e {
        ApplyError::UnknownService(id) => {
            push_unknown_service(&mut out);
            out.push(32);
            extend_bytes(&mut out, id.as_slice());
            proof {
                assert(out@ =~= err_render_spec(e@));
            }
        },
        ApplyError::Terminated => {
            push_terminated(&mut out);
            proof {
                assert(out@ =~= err_render_spec(e@));
            }
        },
    }
    out
}

/// The answer to a frame that would not parse: `ERR decode_error`.
pub fn render_decode_error() -> (r: Vec<u8>)
    ensures
        r@ == decode_err_render(),
{
    let mut out: Vec<u8> = Vec::new();
    push_err_space(&mut out);
    push_decode_error(&mut out);
    proof {
        assert(out@ =~= decode_err_render());
    }
    out
}

/// The table snapshot's wire text: `OK` and one fragment per entry.
pub fn render_table_bytes(t: &Vec<ServiceStatus>) -> (r: Vec<u8>)
    ensures
        r@ == txt_ok() + render_table(t@.map_values(|s: ServiceStatus| s@)),
{
    let ghost model = t@.map_values(|s: ServiceStatus| s@);
    let mut out: Vec<u8> = Vec::new();
    push_ok(&mut out);
    let mut i: usize = 0;
    while i < t.len()
        invariant
            0 <= i <= t@.len(),
            model == t@.map_values(|s: ServiceStatus| s@),
            out@ == txt_ok() + render_table(model.take(i as int)),
        decreases t@.len() - i,
    {
        push_entry(&mut out, &t[i]);
        proof {
            assert(model.take(i as int + 1).drop_last() =~= model.take(i as int));
            assert(model.take(i as int + 1).last() == t@[i as int]@);
        }
        i = i + 1;
    }
    proof {
        assert(model.take(t@.len() as int) =~= model);
    }
    out
}

/// Render a response's wire text; a fetch delegation alone has none yet.
pub fn render_response(r: &Response) -> (o: Option<Vec<u8>>)
    ensures
        match o {
            Some(v) => render_spec(r@) == Some(v@),
            None => render_spec(r@) is None,
        },
{
    match r {
        Response::Table(t) => Some(render_table_bytes(t)),
        Response::FetchRequested(_) => None,
        Response::Applied(_) => {
            let mut out: Vec<u8> = Vec::new();
            push_ok(&mut out);
            Some(out)
        },
        Response::Failed(e) => Some(render_failed(e)),
    }
}

/// Wrap what the HTTP collaborator returned, exactly as `fetch_render_spec`
/// says: `OK` with its payload, or `ERR collaborator_error` with its reason.
pub fn render_fetch_result(ok: bool, body: &[u8]) -> (r: Vec<u8>)
    ensures
        r@ == fetch_render_spec(ok, body@),
{
    let mut out: Vec<u8> = Vec::new();
    if ok {
        push_ok(&mut out);
        if body.len() > 0 {
            out.push(32);
            extend_bytes(&mut out, body);
        }
    } else {
        push_err_space(&mut out);
        push_collaborator_error(&mut out);
        if body.len() > 0 {
            out.push(32);
            extend_bytes(&mut out, body);
        }
    }
    proof {
        assert(out@ =~= fetch_render_spec(ok, body@));
    }
    out
}

} // verus!
