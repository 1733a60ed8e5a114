//! What holds of propagation and of causal chaining, whatever the values.
//!
//! The statements are over the views by which the functions of this crate
//! state what they return, so each carries over to any run of them.

use crate::location::LocationView;
use crate::result::TraceView;
use vstd::prelude::*;

verus! {

/// A failure propagated through `sites` keeps its error and gains exactly
/// the entries `sites`, in that order, behind those it had.
pub proof fn propagation_appends_sites<T, E>(e: E, t: Seq<LocationView>, sites: Seq<LocationView>)
    ensures
        TraceView::<T, E>::Failure(e, t).propagated_through(sites) == TraceView::<T, E>::Failure(
            e,
            t + sites,
        ),
    decreases sites.len(),
{
    if sites.len() == 0 {
        assert(t + sites =~= t);
    } else {
        propagation_appends_sites::<T, E>(e, t.push(sites.first()), sites.drop_first());
        assert(t.push(sites.first()) + sites.drop_first() =~= t + sites);
    }
}

/// A success propagated through any number of sites is the same success,
/// and has no trace.
pub proof fn success_is_trace_free<T, E>(v: T, sites: Seq<LocationView>)
    ensures
        TraceView::<T, E>::Success(v).propagated_through(sites) == TraceView::<T, E>::Success(v),
        TraceView::<T, E>::Success(v).propagated_through(sites).entries().len() == 0,
    decreases sites.len(),
{
    if sites.len() > 0 {
        success_is_trace_free::<T, E>(v, sites.drop_first());
    }
}

/// A failure raised with its own site and then propagated through `sites`
/// holds one entry per hop: the site where it was raised, then `sites` in
/// the order of the calls, innermost first.
pub proof fn one_entry_per_hop<T, E>(e: E, raised_at: LocationView, sites: Seq<LocationView>)
    ensures
        TraceView::<T, E>::Failure(e, Seq::empty()).propagated(raised_at).propagated_through(sites)
            == TraceView::<T, E>::Failure(e, seq![raised_at] + sites),
        TraceView::<T, E>::Failure(e, Seq::empty()).propagated(raised_at).propagated_through(
            sites,
        ).entries().len() == sites.len() + 1,
{
    assert(Seq::<LocationView>::empty().push(raised_at) =~= seq![raised_at]);
    propagation_appends_sites::<T, E>(e, seq![raised_at], sites);
}

/// A failure raised with an empty trace and then propagated through
/// `sites` holds exactly `sites`: nothing stands for the place where it
/// was made.
pub proof fn bare_err_has_no_self_entry<T, E>(e: E, sites: Seq<LocationView>)
    ensures
        TraceView::<T, E>::Failure(e, Seq::empty()).propagated_through(sites) == TraceView::<
            T,
            E,
        >::Failure(e, sites),
        TraceView::<T, E>::Failure(e, Seq::empty()).propagated_through(sites).entries().len()
            == sites.len(),
{
    propagation_appends_sites::<T, E>(e, Seq::empty(), sites);
    assert(Seq::<LocationView>::empty() + sites =~= sites);
}

/// Attaching the cause `a` to a failure with the trace `b` gives the
/// entries of `a`, then those of `b`, each in its own order; the error
/// stays. An empty cause changes nothing.
pub proof fn causal_ordering<T, E>(e: E, a: Seq<LocationView>, b: Seq<LocationView>)
    ensures
        TraceView::<T, E>::Failure(e, b).with_cause(a) == TraceView::<T, E>::Failure(e, a + b),
        TraceView::<T, E>::Failure(e, b).with_cause(a).entries().len() == a.len() + b.len(),
        forall|i: int|
            0 <= i < a.len() ==> TraceView::<T, E>::Failure(e, b).with_cause(a).entries()[i]
                == a[i],
        forall|j: int|
            0 <= j < b.len() ==> TraceView::<T, E>::Failure(e, b).with_cause(a).entries()[a.len()
                + j] == b[j],
        TraceView::<T, E>::Failure(e, b).with_cause(Seq::empty()) == TraceView::<T, E>::Failure(
            e,
            b,
        ),
{
    assert(Seq::<LocationView>::empty() + b =~= b);
}

/// Attaching a cause to a success changes nothing.
pub proof fn cause_leaves_success<T, E>(v: T, a: Seq<LocationView>)
    ensures
        TraceView::<T, E>::Success(v).with_cause(a) == TraceView::<T, E>::Success(v),
{
}

} // verus!
