use vstd::prelude::*;

verus! {

/// Per-call record: one argument, the caller's single-use result channel, and
/// the caller-supplied handler. Created when a call is submitted, consumed by
/// exactly one batch executor.
pub struct Call<Arg, S, H> {
    pub arg: Arg,
    pub out: S,
    pub handler: H,
}

/// The arguments of a batch, in arrival order.
pub open spec fn batch_args<Arg, S, H>(calls: Seq<Call<Arg, S, H>>) -> Seq<Arg> {
    calls.map_values(|c: Call<Arg, S, H>| c.arg)
}

/// The result channels of a batch, in arrival order.
pub open spec fn batch_outs<Arg, S, H>(calls: Seq<Call<Arg, S, H>>) -> Seq<S> {
    calls.map_values(|c: Call<Arg, S, H>| c.out)
}

/// Results paired with their destination channels, by index.
pub open spec fn paired<R, S>(results: Seq<R>, outs: Seq<S>) -> Seq<(R, S)> {
    Seq::new(results.len(), |i: int| (results[i], outs[i]))
}

proof fn lemma_batch_prefix_push<Arg, S, H>(orig: Seq<Call<Arg, S, H>>, k: int)
    requires
        0 <= k < orig.len(),
    ensures
        batch_args(orig.subrange(0, k + 1)) == batch_args(orig.subrange(0, k)).push(orig[k].arg),
        batch_outs(orig.subrange(0, k + 1)) == batch_outs(orig.subrange(0, k)).push(orig[k].out),
{
    assert(batch_args(orig.subrange(0, k + 1)) =~= batch_args(orig.subrange(0, k)).push(
        orig[k].arg,
    ));
    assert(batch_outs(orig.subrange(0, k + 1)) =~= batch_outs(orig.subrange(0, k)).push(
        orig[k].out,
    ));
}

/// Splits a batch into its arguments, its result channels, and the one
/// handler that will run: the handler of the first call enqueued in the
/// batch. The handlers supplied by the remaining callers are dropped
/// unexecuted — distinct call sites must supply interchangeable handlers, so
/// exactly one invocation per batch suffices.
pub fn split_batch<Arg, S, H>(calls: Vec<Call<Arg, S, H>>) -> (r: (Vec<Arg>, Vec<S>, H))
    requires
        calls@.len() > 0,
    ensures
        r.0@ == batch_args(calls@),
        r.1@ == batch_outs(calls@),
        r.2 == calls@[0].handler,
{
    let ghost orig = calls@;
    let mut calls = calls;
    let first = calls.remove(0);
    let handler = first.handler;
    let mut args: Vec<Arg> = Vec::new();
    let mut outs: Vec<S> = Vec::new();
    args.push(first.arg);
    outs.push(first.out);
    proof {
        assert(calls@ =~= orig.subrange(1, orig.len() as int));
        assert(args@ =~= batch_args(orig.subrange(0, 1)));
        assert(outs@ =~= batch_outs(orig.subrange(0, 1)));
    }
    while calls.len() > 0
        invariant
            1 <= args@.len() <= orig.len(),
            outs@.len() == args@.len(),
            calls@ == orig.subrange(args@.len() as int, orig.len() as int),
            args@ == batch_args(orig.subrange(0, args@.len() as int)),
            outs@ == batch_outs(orig.subrange(0, args@.len() as int)),
        decreases calls@.len(),
    {
        let ghost k = args@.len() as int;
        let c = calls.remove(0);
        args.push(c.arg);
        outs.push(c.out);
        proof {
            assert(c == orig[k]);
            lemma_batch_prefix_push(orig, k);
            assert(calls@ =~= orig.subrange(k + 1, orig.len() as int));
        }
    }
    proof {
        assert(orig.subrange(0, orig.len() as int) =~= orig);
    }
    (args, outs, handler)
}

/// The fatal contract breach of the batch path: the handler returned a result
/// collection whose length differs from the batch size. Surfaced loudly by
/// the caller; results are never silently truncated or misaligned.
#[derive(Clone, Copy, PartialEq, Eq, Structural, Debug)]
pub struct LengthMismatch {
    /// The batch size, i.e. how many results were owed.
    pub expected: usize,
    /// How many results the handler actually returned.
    pub actual: usize,
}

/// Pairs each result with the channel of the caller it belongs to, strictly
/// by index, or reports the fatal length mismatch.
pub fn pair_results<R, S>(results: Vec<R>, outs: Vec<S>) -> (r: Result<
    Vec<(R, S)>,
    LengthMismatch,
>)
    ensures
        r is Ok <==> results@.len() == outs@.len(),
        r matches Ok(v) ==> v@ == paired(results@, outs@),
        r matches Err(e) ==> e.expected == outs@.len() && e.actual == results@.len(),
{
    if results.len() != outs.len() {
        return Err(LengthMismatch { expected: outs.len(), actual: results.len() });
    }
    let ghost rorig = results@;
    let ghost oorig = outs@;
    let mut results = results;
    let mut outs = outs;
    let mut pairs: Vec<(R, S)> = Vec::new();
    proof {
        assert(pairs@ =~= paired(rorig, oorig).subrange(0, 0));
    }
    while results.len() > 0
        invariant
            rorig.len() == oorig.len(),
            pairs@.len() + results@.len() == rorig.len(),
            results@ == rorig.subrange(pairs@.len() as int, rorig.len() as int),
            outs@ == oorig.subrange(pairs@.len() as int, oorig.len() as int),
            pairs@ == paired(rorig, oorig).subrange(0, pairs@.len() as int),
        decreases results@.len(),
    {
        let ghost k = pairs@.len() as int;
        let r0 = results.remove(0);
        let o0 = outs.remove(0);
        pairs.push((r0, o0));
        proof {
            assert(results@ =~= rorig.subrange(k + 1, rorig.len() as int));
            assert(outs@ =~= oorig.subrange(k + 1, oorig.len() as int));
            assert(pairs@ =~= paired(rorig, oorig).subrange(0, k + 1));
        }
    }
    proof {
        assert(pairs@ =~= paired(rorig, oorig));
    }
    Ok(pairs)
}

#[verifier::external_type_specification]
#[verifier::external_body]
#[verifier::reject_recursive_types(T)]
pub struct ExOneshotSender<T>(tokio::sync::oneshot::Sender<T>);

/// Relies on tokio::sync::oneshot::Sender::send: the value is delivered
/// unless the receiving half was already dropped, in which case it is handed
/// back unchanged; the call never blocks and never panics.
#[verifier::external_body]
fn send_result<R>(out: tokio::sync::oneshot::Sender<R>, value: R) -> (r: Result<(), R>)
    ensures
        r matches Err(v) ==> v == value,
{
    out.send(value)
}

/// Attempts delivery of every paired result, in order. A caller that
/// abandoned its wait has dropped its receiver; its delivery fails silently —
/// a benign race, not an error — and the deliveries to the remaining callers
/// are attempted all the same: the count of attempts always equals the batch
/// size.
pub fn send_all<R>(pairs: Vec<(R, tokio::sync::oneshot::Sender<R>)>) -> (n: usize)
    ensures
        n == pairs@.len(),
{
    let total_e = pairs.len();
    let ghost total: nat = pairs@.len();
    let mut pairs = pairs;
    let mut n: usize = 0;
    while pairs.len() > 0
        invariant
            total <= usize::MAX,
            n + pairs@.len() == total,
        decreases pairs@.len(),
    {
        let (value, out) = pairs.remove(0);
        let _ = send_result(out, value);
        n = n + 1;
    }
    n
}

/// Fans a handler's results back out to the callers of a batch: checks the
/// handler kept its length contract, then delivers result `i` to caller `i`.
/// On a length mismatch nothing at all is delivered and the breach is
/// reported for the caller to surface loudly.
pub fn fan_out<R>(results: Vec<R>, outs: Vec<tokio::sync::oneshot::Sender<R>>) -> (r: Result<
    usize,
    LengthMismatch,
>)
    ensures
        r is Ok <==> results@.len() == outs@.len(),
        r matches Ok(n) ==> n == results@.len(),
        r matches Err(e) ==> e.expected == outs@.len() && e.actual == results@.len(),
{
    match pair_results(results, outs) {
        Ok(pairs) => Ok(send_all(pairs)),
        Err(e) => Err(e),
    }
}

/// Result correspondence law: for a batch with arguments in arrival order and
/// a handler result collection of the same length, the delivery plan pairs
/// the i-th result with the result channel of the i-th call — for every batch
/// size, including a batch of one.
pub proof fn lemma_result_correspondence<Arg, S, H, R>(
    calls: Seq<Call<Arg, S, H>>,
    results: Seq<R>,
)
    requires
        results.len() == calls.len(),
    ensures
        paired(results, batch_outs(calls)).len() == calls.len(),
        forall|i: int|
            0 <= i < calls.len() ==> #[trigger] paired(results, batch_outs(calls))[i] == (
                results[i],
                calls[i].out,
            ),
{
}

} // verus!
