use vstd::prelude::*;

verus! {

/// The identity operator: hands its input on and never fails.
pub fn passthrough<T, E>(input: T) -> (r: Result<T, E>)
    ensures
        r == Ok::<T, E>(input),
{
    Ok(input)
}

/// Applies an infallible transform to the output of an upstream stage;
/// an upstream error passes unchanged and `f` is not called.
pub fn map<A, B, E, F: FnOnce(A) -> B>(upstream: Result<A, E>, f: F) -> (r: Result<B, E>)
    requires
        upstream matches Ok(a) ==> f.requires((a,)),
    ensures
        upstream matches Err(e) ==> r == Err::<B, E>(e),
        upstream matches Ok(a) ==> (r matches Ok(b) && f.ensures((a,), b)),
{
    match upstream {
        Ok(a) => Ok(f(a)),
        Err(e) => Err(e),
    }
}

/// Feeds the output of an upstream stage into the next operator.
/// An upstream error short-circuits: `next` is not invoked, so it need
/// accept no input at all in that case.
pub fn chain<A, B, E, F: FnOnce(A) -> Result<B, E>>(upstream: Result<A, E>, next: F) -> (r: Result<B, E>)
    requires
        upstream matches Ok(a) ==> next.requires((a,)),
    ensures
        upstream matches Err(e) ==> r == Err::<B, E>(e),
        upstream matches Ok(a) ==> next.ensures((a,), r),
{
    match upstream {
        Ok(a) => next(a),
        Err(e) => Err(e),
    }
}

/// Runs two operators on the same input and keeps both results: a failure
/// of one branch does not discard the other.
pub fn parallel<I, A, B, EA, EB, FA, FB>(input: &I, left: FA, right: FB) -> (r: (
    Result<A, EA>,
    Result<B, EB>,
)) where FA: FnOnce(&I) -> Result<A, EA>, FB: FnOnce(&I) -> Result<B, EB>
    requires
        left.requires((input,)),
        right.requires((input,)),
    ensures
        left.ensures((input,), r.0),
        right.ensures((input,), r.1),
{
    let a = left(input);
    let b = right(input);
    (a, b)
}

} // verus!
