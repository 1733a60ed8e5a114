//! The trace-carrying result, its propagation step and its terminal form.

use crate::location::{Location, LocationView};
use crate::return_trace::ReturnTrace;
use core::ops::ControlFlow;
use vstd::prelude::*;
use vstd::std_specs::convert::FromSpec;

verus! {

/// The mathematical value of a failure: the error and the entries of its
/// trace, oldest first.
pub struct FailureView<E> {
    pub error: E,
    pub trace: Seq<LocationView>,
}

/// The mathematical value of a [`Trace`].
pub enum TraceView<T, E> {
    Success(T),
    Failure(E, Seq<LocationView>),
}

impl<T, E> TraceView<T, E> {
    /// The entries of the trace; a success has none.
    pub open spec fn entries(self) -> Seq<LocationView> {
        match self {
            TraceView::Success(_) => Seq::empty(),
            TraceView::Failure(_, t) => t,
        }
    }

    /// One propagation step at `site`: a success passes unchanged, a
    /// failure gains `site` as its newest entry.
    pub open spec fn propagated(self, site: LocationView) -> TraceView<T, E> {
        match self {
            TraceView::Success(v) => TraceView::Success(v),
            TraceView::Failure(e, t) => TraceView::Failure(e, t.push(site)),
        }
    }

    /// Propagation through `sites` in turn, the innermost first.
    pub open spec fn propagated_through(self, sites: Seq<LocationView>) -> TraceView<T, E>
        decreases sites.len(),
    {
        if sites.len() == 0 {
            self
        } else {
            self.propagated(sites.first()).propagated_through(sites.drop_first())
        }
    }

    /// The value with `cause` spliced in front of its trace; a success
    /// passes unchanged.
    pub open spec fn with_cause(self, cause: Seq<LocationView>) -> TraceView<T, E> {
        match self {
            TraceView::Success(v) => TraceView::Success(v),
            TraceView::Failure(e, t) => TraceView::Failure(e, cause + t),
        }
    }
}

/// Either a value, or an error together with the trace of its return path.
///
/// A success owns no trace. A failure owns exactly one, which may be empty.
#[derive(Debug)]
pub enum Trace<T, E> {
    Success(T),
    Failure(E, ReturnTrace),
}

/// A failure on its way out of a function: what [`Trace::branch`] hands
/// back in place of a value. It has no success form.
#[derive(Debug)]
pub struct Residual<E> {
    error: E,
    trace: ReturnTrace,
}

/// The terminal form of a failure: the error and its trace, to which
/// nothing can be appended any more.
#[derive(Debug)]
pub struct Traced<E>(E, ReturnTrace);

impl<T, E> View for Trace<T, E> {
    type V = TraceView<T, E>;

    open spec fn view(&self) -> TraceView<T, E> {
        match *self {
            Trace::Success(v) => TraceView::Success(v),
            Trace::Failure(e, t) => TraceView::Failure(e, t@),
        }
    }
}

impl<E> View for Residual<E> {
    type V = FailureView<E>;

    closed spec fn view(&self) -> FailureView<E> {
        FailureView { error: self.error, trace: self.trace@ }
    }
}

impl<E> View for Traced<E> {
    type V = FailureView<E>;

    closed spec fn view(&self) -> FailureView<E> {
        FailureView { error: self.0, trace: self.1@ }
    }
}

impl<E> Residual<E> {
    /// The error.
    pub fn error(&self) -> (out: &E)
        ensures
            *out == self@.error,
    {
        &self.error
    }

    /// The trace so far.
    pub fn trace(&self) -> (out: &ReturnTrace)
        ensures
            out@ == self@.trace,
    {
        &self.trace
    }
}

impl<E> Traced<E> {
    /// The error.
    pub fn error(&self) -> (out: &E)
        ensures
            *out == self@.error,
    {
        &self.0
    }

    /// The trace, as it stood at the terminal conversion.
    pub fn trace(&self) -> (out: &ReturnTrace)
        ensures
            out@ == self@.trace,
    {
        &self.1
    }

    /// The error and the trace.
    pub fn into_parts(self) -> (out: (E, ReturnTrace))
        ensures
            out.0 == self@.error,
            out.1@ == self@.trace,
    {
        (self.0, self.1)
    }
}

impl<T, E> Trace<T, E> {
    /// Wraps a value; no trace is made.
    pub fn success(value: T) -> (out: Self)
        ensures
            out@ == TraceView::<T, E>::Success(value),
    {
        Trace::Success(value)
    }

    /// Same as [`Trace::success`].
    pub fn from_output(o: T) -> (out: Self)
        ensures
            out@ == TraceView::<T, E>::Success(o),
    {
        Trace::Success(o)
    }

    /// A new failure with an empty trace.
    pub fn err(e: E) -> (out: Self)
        ensures
            out@ == TraceView::<T, E>::Failure(e, Seq::empty()),
    {
        Trace::Failure(e, ReturnTrace::new())
    }

    /// A new failure whose trace holds `location`, the place where it is
    /// raised: [`Trace::err`] propagated once.
    pub fn err_here(e: E, location: Location) -> (out: Self)
        ensures
            out@ == TraceView::<T, E>::Failure(e, seq![location@]),
            out@ == TraceView::<T, E>::Failure(e, Seq::empty()).propagated(location@),
    {
        let raised: Trace<T, E> = Trace::err(e);
        let out = raised.propagate(location);
        assert(Seq::<LocationView>::empty().push(location@) =~= seq![location@]);
        out
    }

    /// Splits a result for the propagation step: a success continues with
    /// its value, a failure breaks with error and trace untouched.
    pub fn branch(self) -> (out: ControlFlow<Residual<E>, T>)
        ensures
            match self@ {
                TraceView::Success(v) => out == ControlFlow::<Residual<E>, T>::Continue(v),
                TraceView::Failure(e, t) => out matches ControlFlow::Break(r) && r@ == (FailureView {
                    error: e,
                    trace: t,
                }),
            },
    {
        match self {
            Trace::Success(o) => ControlFlow::Continue(o),
            Trace::Failure(e, t) => ControlFlow::Break(Residual { error: e, trace: t }),
        }
    }

    /// Completes the propagation step at `location` without changing the
    /// error's type: the failure `r` with `location` as its newest entry.
    pub fn from_failure(r: Residual<E>, location: Location) -> (out: Self)
        ensures
            out@ == TraceView::<T, E>::Failure(r@.error, r@.trace.push(location@)),
    {
        let Residual { error, trace } = r;
        let mut trace = trace;
        trace.push(location);
        Trace::Failure(error, trace)
    }

    /// The propagation step at `location`, for a function that fails with
    /// the same error type: a success passes unchanged, a failure gains
    /// `location` as its newest entry.
    pub fn propagate(self, location: Location) -> (out: Self)
        ensures
            out@ == self@.propagated(location@),
    {
        match self.branch() {
            ControlFlow::Continue(v) => Trace::Success(v),
            ControlFlow::Break(r) => Trace::from_failure(r, location),
        }
    }
}

impl<T, F> Trace<T, F> {
    /// Completes the propagation step at `location` in a function that
    /// fails with the wider error type `F`: the failure `r` with its error
    /// converted and `location` as its newest entry.
    ///
    /// The conversion cannot fail, so the result is always a failure and
    /// its trace is exact. The error is whatever `F::from` returns for the
    /// error of `r`; where `F` states its conversion, it is that value.
    pub fn from_residual<E>(r: Residual<E>, location: Location) -> (out: Self) where F: From<E>
        ensures
            out@ matches TraceView::Failure(f, t) && t == r@.trace.push(location@)
                && call_ensures(F::from, (r@.error,), f),
            F::obeys_from_spec() ==> out@ == TraceView::<T, F>::Failure(
                F::from_spec(r@.error),
                r@.trace.push(location@),
            ),
    {
        let Residual { error, trace } = r;
        let mut trace = trace;
        // trace the return of the error
        trace.push(location);
        Trace::Failure(F::from(error), trace)
    }
}

impl<T, E> Trace<T, E> {
    /// The propagation step at `location`, for a function that fails with
    /// the wider error type `F`: a success passes unchanged; a failure has
    /// its error converted and gains `location` as its newest entry.
    pub fn propagate_into<F: From<E>>(self, location: Location) -> (out: Trace<T, F>)
        ensures
            match self@ {
                TraceView::Success(v) => out@ == TraceView::<T, F>::Success(v),
                TraceView::Failure(e, t) => out@ matches TraceView::Failure(f, t2) && t2 == t.push(
                    location@,
                ) && call_ensures(F::from, (e,), f) && (F::obeys_from_spec() ==> f
                    == F::from_spec(e)),
            },
            out@.entries() == self@.propagated(location@).entries(),
    {
        match self.branch() {
            ControlFlow::Continue(v) => Trace::Success(v),
            ControlFlow::Break(r) => Trace::from_residual(r, location),
        }
    }

    /// The terminal conversion: the equivalent ordinary result. A failure
    /// keeps its error and every entry of its trace, and can gain no more.
    pub fn as_result(self) -> (out: Result<T, Traced<E>>)
        ensures
            match self@ {
                TraceView::Success(v) => out == Ok::<T, Traced<E>>(v),
                TraceView::Failure(e, t) => out matches Err(d) && d@ == (FailureView {
                    error: e,
                    trace: t,
                }),
            },
    {
        Result::from(self)
    }

    /// Records `cause` as what led to this failure: its entries come first,
    /// then the entries that the failure had. A success passes unchanged.
    pub fn caused_by(self, cause: ReturnTrace) -> (out: Self)
        ensures
            out@ == self@.with_cause(cause@),
    {
        let mut out = self;
        cause.caused_result(&mut out);
        out
    }

    /// Attaches the trace `cause`, captured earlier, in front of this
    /// failure's own: same as [`Trace::caused_by`].
    pub fn with_trace(self, cause: ReturnTrace) -> (out: Self)
        ensures
            out@ == self@.with_cause(cause@),
    {
        self.caused_by(cause)
    }
}

impl ReturnTrace {
    /// Makes `self` the cause of `other` where `other` is a failure:
    /// afterwards its trace holds the entries of `self`, then the entries
    /// it held before. A success is left as it is.
    pub fn caused_result<T, E>(self, other: &mut Trace<T, E>)
        ensures
            final(other)@ == old(other)@.with_cause(self@),
    {
        match other {
            Trace::Failure(_, t) => {
                self.caused(t);
            },
            Trace::Success(_) => {},
        }
    }
}

impl<T, E> From<Trace<T, E>> for Result<T, Traced<E>> {
    /// The terminal conversion, as [`Trace::as_result`] makes it.
    fn from(value: Trace<T, E>) -> (out: Self) {
        match value {
            Trace::Success(o) => Ok(o),
            Trace::Failure(e, t) => Err(Traced(e, t)),
        }
    }
}

impl<T, E> vstd::std_specs::convert::FromSpecImpl<Trace<T, E>> for Result<T, Traced<E>> {
    open spec fn obeys_from_spec() -> bool {
        true
    }

    closed spec fn from_spec(value: Trace<T, E>) -> Self {
        match value {
            Trace::Success(o) => Ok(o),
            Trace::Failure(e, t) => Err(Traced(e, t)),
        }
    }
}

/// What [`From`] makes of a result, stated over views: a success keeps
/// its value, a failure its error and every entry of its trace.
pub proof fn terminal_form_of_from<T, E>(value: Trace<T, E>)
    ensures
        match value@ {
            TraceView::Success(v) => Result::<T, Traced<E>>::from_spec(value) == Ok::<
                T,
                Traced<E>,
            >(v),
            TraceView::Failure(e, t) => Result::<T, Traced<E>>::from_spec(value) matches Err(d)
                && d@ == (FailureView { error: e, trace: t }),
        },
{
}

impl<F> Traced<F> {
    /// Completes the propagation step at `location` in a function that
    /// returns an ordinary result: the failure `r`, its error converted to
    /// `F` and `location` as its last entry, in terminal form.
    pub fn from_residual<T, E>(r: Residual<E>, location: Location) -> (out: Result<T, Traced<F>>)
        where F: From<E>
        ensures
            out matches Err(d) && d@.trace == r@.trace.push(location@) && call_ensures(
                F::from,
                (r@.error,),
                d@.error,
            ),
            F::obeys_from_spec() ==> (out matches Err(d) && d@ == (FailureView {
                error: F::from_spec(r@.error),
                trace: r@.trace.push(location@),
            })),
    {
        let traced: Trace<T, F> = Trace::from_residual(r, location);
        traced.as_result()
    }
}

/// The status that an entry point hands to its host after a failure.
pub const FAILURE_STATUS: u8 = 1;

/// How an entry point that ends with a [`Trace`] completes.
#[derive(Debug)]
pub enum Completion<T, E> {
    /// Normal completion; the value decides what else is reported.
    Normal(T),
    /// Abnormal completion: the failure to present, error first and then
    /// its trace, and the status to signal, which is never zero.
    Abnormal { status: u8, failure: Traced<E> },
}

impl<T, E> Trace<T, E> {
    /// Decides how an entry point completes: normally on a success; on a
    /// failure abnormally, with the failure in terminal form and
    /// [`FAILURE_STATUS`].
    pub fn report(self) -> (out: Completion<T, E>)
        ensures
            match self@ {
                TraceView::Success(v) => out == Completion::<T, E>::Normal(v),
                TraceView::Failure(e, t) => out matches Completion::Abnormal { status, failure }
                    && status == FAILURE_STATUS && status != 0 && failure@ == (FailureView {
                    error: e,
                    trace: t,
                }),
            },
    {
        match self.as_result() {
            Ok(v) => Completion::Normal(v),
            Err(failure) => Completion::Abnormal { status: FAILURE_STATUS, failure },
        }
    }
}

} // verus!
