//! The timing interceptor: it records when a request arrived, and when the
//! response is ready it works out how long the handling took and words the
//! line that reports it. The response itself passes through untouched.

use crate::clock::MonotonicClock;
use crate::text::{millis_text, render_millis};
use vstd::prelude::*;
use vstd::string::*;

verus! {

/// The time from `start` to `now` in nanoseconds: their difference, or zero
/// where `now` lies before `start`.
pub open spec fn elapsed_between(start: u128, now: u128) -> int {
    if now >= start {
        now - start
    } else {
        0
    }
}

/// The line that reports an elapsed time of `nanos` nanoseconds: the time in
/// milliseconds with three decimals.
pub open spec fn elapsed_text(nanos: nat) -> Seq<char> {
    "Request took: "@ + millis_text(nanos)
}

/// What belongs to one request while it is handled: the time at which it
/// arrived, once that has been recorded. Each request has a context of its
/// own, and nothing is shared between two of them.
pub struct RequestContext {
    start: Option<u128>,
}

impl RequestContext {
    /// The recorded arrival time, if there is one.
    pub closed spec fn start_time(&self) -> Option<u128> {
        self.start
    }

    /// The context after `now` was recorded in it.
    pub closed spec fn recorded(self, now: u128) -> RequestContext {
        RequestContext { start: Some(now) }
    }

    /// The elapsed time that a reading `now` gives in this context: none
    /// where no arrival time was recorded.
    pub open spec fn elapsed_at(&self, now: u128) -> Option<int> {
        match self.start_time() {
            Some(start) => Some(elapsed_between(start, now)),
            None => None,
        }
    }

    /// The context of a request that has just come in: nothing recorded.
    pub fn new() -> (ctx: RequestContext)
        ensures
            ctx.start_time() is None,
    {
        RequestContext { start: None }
    }

    /// Whether an arrival time has been recorded.
    pub fn is_started(&self) -> (b: bool)
        ensures
            b == (self.start_time() is Some),
    {
        self.start.is_some()
    }

    /// The recorded arrival time.
    pub fn start(&self) -> (t: Option<u128>)
        ensures
            t == self.start_time(),
    {
        self.start
    }

    /// The nanoseconds from the recorded arrival time to `now`, or `None`
    /// where no arrival time was recorded.
    pub fn elapsed(&self, now: u128) -> (e: Option<u128>)
        ensures
            e is Some <==> self.start_time() is Some,
            e is Some ==> self.elapsed_at(now) == Some(e->0 as int),
    {
        match self.start {
            Some(start) => {
                if now >= start {
                    Some(now - start)
                } else {
                    Some(0)
                }
            },
            None => None,
        }
    }
}

/// A response together with the time its handling took.
pub struct Timed<R> {
    /// The handler's response, as the handler gave it.
    pub response: R,
    /// The elapsed time in nanoseconds.
    pub elapsed_nanos: u128,
    /// The line that reports the elapsed time.
    pub message: String,
}

/// Words the line that reports an elapsed time.
pub fn elapsed_message(nanos: u128) -> (line: String)
    ensures
        line@ == elapsed_text(nanos as nat),
{
    let mut line = String::from_str("Request took: ");
    let time = render_millis(nanos);
    line.append(time.as_str());
    line
}

/// The first phase, at a given reading of the clock: records `now` as the
/// arrival time of the request that `ctx` belongs to.
pub fn before_at(ctx: &mut RequestContext, now: u128)
    ensures
        *final(ctx) == old(ctx).recorded(now),
        final(ctx).start_time() == Some(now),
{
    ctx.start = Some(now);
}

/// The second phase, at a given reading of the clock: the response comes back
/// as it was handed in, with the time since the recorded arrival and the line
/// that reports it. The context must hold an arrival time; it is only read,
/// and stays in the context as it was recorded.
pub fn after_at<R>(ctx: &RequestContext, now: u128, res: R) -> (out: Timed<R>)
    requires
        ctx.start_time() is Some,
    ensures
        out.response == res,
        ctx.elapsed_at(now) == Some(out.elapsed_nanos as int),
        out.message@ == elapsed_text(out.elapsed_nanos as nat),
{
    let elapsed = ctx.elapsed(now).unwrap();
    Timed { response: res, elapsed_nanos: elapsed, message: elapsed_message(elapsed) }
}

/// The second phase for a context that may hold no arrival time. Where one
/// was recorded, this is `after_at`. Where none was, the two phases were not
/// paired: no elapsed time and no line is made up, and the response comes
/// back alone, as it was handed in, for the caller to fail on.
pub fn try_after_at<R>(ctx: &RequestContext, now: u128, res: R) -> (out: Result<Timed<R>, R>)
    ensures
        out is Ok <==> ctx.start_time() is Some,
        out is Ok ==> out->Ok_0.response == res,
        out is Ok ==> ctx.elapsed_at(now) == Some(out->Ok_0.elapsed_nanos as int),
        out is Ok ==> out->Ok_0.message@ == elapsed_text(out->Ok_0.elapsed_nanos as nat),
        out is Err ==> out->Err_0 == res,
{
    if ctx.is_started() {
        Ok(after_at(ctx, now, res))
    } else {
        Err(res)
    }
}

/// The interceptor. It holds the clock that both phases read, and nothing
/// that belongs to a request: any number of requests may pass through one
/// interceptor at the same time. The two phases of a request go through the
/// same interceptor, since readings of two clocks cannot be compared.
pub struct ResponseTime {
    clock: MonotonicClock,
}

impl ResponseTime {
    /// An interceptor with a clock of its own.
    pub fn new() -> (timer: ResponseTime) {
        ResponseTime { clock: MonotonicClock::new() }
    }

    /// The first phase: reads the clock and records the reading in `ctx`.
    pub fn before(&self, ctx: &mut RequestContext)
        ensures
            final(ctx).start_time() is Some,
            exists|now: u128| *final(ctx) == old(ctx).recorded(now),
    {
        let now = self.clock.now();
        before_at(ctx, now);
    }

    /// The second phase: reads the clock and returns the response as it was
    /// handed in, with the time since the arrival recorded in `ctx` and the
    /// line that reports it. The context must hold an arrival time, recorded
    /// by this interceptor; it is only read.
    pub fn after<R>(&self, ctx: &RequestContext, res: R) -> (out: Timed<R>)
        requires
            ctx.start_time() is Some,
        ensures
            out.response == res,
            exists|now: u128| ctx.elapsed_at(now) == Some(out.elapsed_nanos as int),
            out.message@ == elapsed_text(out.elapsed_nanos as nat),
    {
        let now = self.clock.now();
        after_at(ctx, now, res)
    }

    /// The second phase for a context that may hold no arrival time: `after`
    /// where one was recorded; where none was, the response alone, with no
    /// elapsed time and no line.
    pub fn try_after<R>(&self, ctx: &RequestContext, res: R) -> (out: Result<Timed<R>, R>)
        ensures
            out is Ok <==> ctx.start_time() is Some,
            out is Ok ==> out->Ok_0.response == res,
            out is Ok ==> exists|now: u128|
                ctx.elapsed_at(now) == Some(out->Ok_0.elapsed_nanos as int),
            out is Ok ==> out->Ok_0.message@ == elapsed_text(out->Ok_0.elapsed_nanos as nat),
            out is Err ==> out->Err_0 == res,
    {
        if ctx.is_started() {
            Ok(self.after(ctx, res))
        } else {
            Err(res)
        }
    }

    /// Wraps a handler: records the arrival in a context made for this one
    /// request, lets the handler answer, and returns what the handler gave
    /// with the time it took.
    pub fn handle<Req, Res, F: FnOnce(Req) -> Res>(&self, handler: F, req: Req) -> (out: Timed<Res>)
        requires
            handler.requires((req,)),
        ensures
            handler.ensures((req,), out.response),
            out.message@ == elapsed_text(out.elapsed_nanos as nat),
    {
        let mut ctx = RequestContext::new();
        self.before(&mut ctx);
        let res = handler(req);
        self.after(&ctx, res)
    }
}

/// Once an arrival time is recorded, every later or earlier reading gives an
/// elapsed time, and it is never negative; where the clock did not run
/// backwards it is the difference of the two readings.
pub proof fn lemma_elapsed_nonnegative(ctx: RequestContext, start: u128, now: u128)
    ensures
        ctx.recorded(start).elapsed_at(now) is Some,
        ctx.recorded(start).elapsed_at(now)->0 >= 0,
        now >= start ==> ctx.recorded(start).elapsed_at(now) == Some(now - start),
{
}

/// Two requests are kept apart: the elapsed time of each is taken from the
/// arrival time recorded in its own context, whatever was recorded in the
/// other's.
pub proof fn lemma_requests_isolated(
    a: RequestContext,
    b: RequestContext,
    start_a: u128,
    start_b: u128,
    now: u128,
)
    ensures
        a.recorded(start_a).elapsed_at(now) == Some(elapsed_between(start_a, now)),
        b.recorded(start_b).elapsed_at(now) == Some(elapsed_between(start_b, now)),
        a.recorded(start_a).start_time() == Some(start_a),
        b.recorded(start_b).start_time() == Some(start_b),
{
}

/// A handler that takes at least `delay` nanoseconds is reported with at
/// least that much: where the second reading is `delay` or more after the
/// first, the elapsed time is `delay` or more, and exactly `delay` where the
/// reading is exactly `delay` later.
pub proof fn lemma_elapsed_covers_delay(start: u128, delay: u128, now: u128)
    requires
        now >= start + delay,
    ensures
        elapsed_between(start, now) >= delay,
        now == start + delay ==> elapsed_between(start, now) == delay,
{
}

/// No elapsed time is made up: a context in which nothing was recorded gives
/// none, at any reading.
pub proof fn lemma_no_start_no_elapsed(ctx: RequestContext, now: u128)
    requires
        ctx.start_time() is None,
    ensures
        ctx.elapsed_at(now) is None,
{
}

} // verus!
