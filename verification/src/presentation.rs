use vstd::prelude::*;

verus! {

/// The operations the QR presentation flow performs on its temporary image
/// file.
#[derive(Clone, Copy, PartialEq, Eq, Structural, Debug)]
pub enum QrOp {
    /// Encode the subscription URL into an image at the temporary path.
    Render,
    /// Send the image to the user.
    Send,
    /// Delete the temporary file.
    Remove,
}

/// Why a QR presentation run failed.
#[derive(Clone, Copy, PartialEq, Eq, Structural, Debug)]
pub enum QrError {
    RenderFailed,
    SendFailed,
}

/// The operations a QR presentation run performs, in order, for the given step
/// outcomes: rendering is always attempted; the image is sent only when it was
/// rendered; the temporary file is removed last on every path.
pub open spec fn qr_run(render_ok: bool, send_ok: bool) -> Seq<QrOp> {
    if render_ok {
        seq![QrOp::Render, QrOp::Send, QrOp::Remove]
    } else {
        seq![QrOp::Render, QrOp::Remove]
    }
}

/// Whether the temporary artifact exists after the given operations ran.
pub open spec fn artifact_present_after(ops: Seq<QrOp>) -> bool
    decreases ops.len(),
{
    if ops.len() == 0 {
        false
    } else {
        match ops.last() {
            QrOp::Render => true,
            QrOp::Send => artifact_present_after(ops.drop_last()),
            QrOp::Remove => false,
        }
    }
}

/// A decided QR presentation run: the operations to perform, in order, and the
/// result to report.
pub struct QrPlan {
    pub ops: Vec<QrOp>,
    pub result: Result<(), QrError>,
}

/// Decides the QR presentation run for one subscription URL from the outcomes
/// of its two fallible steps. The temporary file is removed on every path —
/// success, render failure and send failure alike — and the result reports the
/// first step that failed.
pub fn qr_plan(render_ok: bool, send_ok: bool) -> (p: QrPlan)
    ensures
        p.ops@ == qr_run(render_ok, send_ok),
        !render_ok ==> p.result == Result::<(), QrError>::Err(QrError::RenderFailed),
        render_ok && !send_ok ==> p.result == Result::<(), QrError>::Err(QrError::SendFailed),
        render_ok && send_ok ==> p.result is Ok,
        !artifact_present_after(p.ops@),
{
    let mut ops: Vec<QrOp> = Vec::new();
    ops.push(QrOp::Render);
    if render_ok {
        ops.push(QrOp::Send);
        ops.push(QrOp::Remove);
        assert(ops@ =~= qr_run(render_ok, send_ok));
        proof {
            lemma_qr_cleanup(render_ok, send_ok);
        }
        if send_ok {
            QrPlan { ops, result: Ok(()) }
        } else {
            QrPlan { ops, result: Err(QrError::SendFailed) }
        }
    } else {
        ops.push(QrOp::Remove);
        assert(ops@ =~= qr_run(render_ok, send_ok));
        proof {
            lemma_qr_cleanup(render_ok, send_ok);
        }
        QrPlan { ops, result: Err(QrError::RenderFailed) }
    }
}

/// Whatever the outcomes of rendering and sending, a QR presentation run leaves
/// no temporary artifact behind.
pub proof fn lemma_qr_cleanup(render_ok: bool, send_ok: bool)
    ensures
        !artifact_present_after(qr_run(render_ok, send_ok)),
{
    let ops = qr_run(render_ok, send_ok);
    assert(ops.last() == QrOp::Remove);
}

} // verus!
