//! Laws of a handle's life: what holds over several calls of the proxy on
//! one handle, whatever the plugin behind it does.

use crate::output::{exit_step, flush_step, Plugin, ResultCode};
use vstd::prelude::*;

verus! {

/// One delivery of the host: the payload and the raw tag that came with it.
pub struct Delivery {
    pub data: Seq<u8>,
    pub tag: Seq<u8>,
}

/// Whether `codes` and `handles` record a run of flushes on one handle:
/// `handles[i]` is what the handle held before the delivery `i` and
/// `handles[i + 1]` what it held after it, and `codes[i]` is the one code
/// that the delivery was answered with.
pub open spec fn flush_run<P: Plugin>(
    handles: Seq<Option<P>>,
    deliveries: Seq<Delivery>,
    codes: Seq<ResultCode>,
) -> bool {
    &&& handles.len() == deliveries.len() + 1
    &&& codes.len() == deliveries.len()
    &&& forall|i: int|
        0 <= i < deliveries.len() ==> #[trigger] flush_step::<P>(
            handles[i],
            deliveries[i].data,
            deliveries[i].tag,
            handles[i + 1],
            codes[i],
        )
}

/// A flush leaves the handle as it found it in this respect: a handle that
/// held an instance holds one afterwards, whatever code the call gave, and a
/// null handle stays null.
pub proof fn lemma_flush_keeps_instance<P: Plugin>(
    before: Option<P>,
    data: Seq<u8>,
    tag: Seq<u8>,
    after: Option<P>,
    code: ResultCode,
)
    requires
        flush_step::<P>(before, data, tag, after, code),
    ensures
        before is Some <==> after is Some,
{
}

/// However many deliveries are flushed on a handle that holds an instance,
/// the handle holds an instance before and after each of them: the instance
/// is there for the next call.
pub proof fn lemma_flush_run_keeps_instance<P: Plugin>(
    handles: Seq<Option<P>>,
    deliveries: Seq<Delivery>,
    codes: Seq<ResultCode>,
)
    requires
        flush_run::<P>(handles, deliveries, codes),
        handles[0] is Some,
    ensures
        forall|i: int| 0 <= i < handles.len() ==> (#[trigger] handles[i]) is Some,
    decreases deliveries.len(),
{
    if deliveries.len() > 0 {
        let n = deliveries.len() as int;
        let shorter = handles.drop_last();
        assert forall|i: int| 0 <= i < n - 1 implies #[trigger] flush_step::<P>(
            shorter[i],
            deliveries.drop_last()[i].data,
            deliveries.drop_last()[i].tag,
            shorter[i + 1],
            codes.drop_last()[i],
        ) by {
            assert(flush_step::<P>(
                handles[i],
                deliveries[i].data,
                deliveries[i].tag,
                handles[i + 1],
                codes[i],
            ));
        }
        lemma_flush_run_keeps_instance::<P>(shorter, deliveries.drop_last(), codes.drop_last());
        let last = n - 1;
        assert(shorter[last] is Some);
        assert(flush_step::<P>(
            handles[last],
            deliveries[last].data,
            deliveries[last].tag,
            handles[last + 1],
            codes[last],
        ));
        assert forall|i: int| 0 <= i < handles.len() implies (#[trigger] handles[i]) is Some by {
            if i < n {
                assert(shorter[i] is Some);
            }
        }
    }
}

/// A flush on a null handle is a hard failure, whatever is delivered.
pub proof fn lemma_flush_of_null_fails<P: Plugin>(
    data: Seq<u8>,
    tag: Seq<u8>,
    after: Option<P>,
    code: ResultCode,
)
    requires
        flush_step::<P>(None, data, tag, after, code),
    ensures
        code == ResultCode::Error,
        after is None,
{
}

/// An exit leaves the handle null, so a second exit on it is a hard failure
/// and leaves it null again.
pub proof fn lemma_second_exit_fails<P: Plugin>(
    start: Option<P>,
    exited: Option<P>,
    first: ResultCode,
    after: Option<P>,
    second: ResultCode,
)
    requires
        exit_step::<P>(start, exited, first),
        exit_step::<P>(exited, after, second),
    ensures
        second == ResultCode::Error,
        after is None,
{
}

/// A flush on a handle that has been through an exit is a hard failure: no
/// instance is flushed once it has exited.
pub proof fn lemma_flush_after_exit_fails<P: Plugin>(
    start: Option<P>,
    exited: Option<P>,
    first: ResultCode,
    data: Seq<u8>,
    tag: Seq<u8>,
    after: Option<P>,
    second: ResultCode,
)
    requires
        exit_step::<P>(start, exited, first),
        flush_step::<P>(exited, data, tag, after, second),
    ensures
        second == ResultCode::Error,
        after is None,
{
}

} // verus!
