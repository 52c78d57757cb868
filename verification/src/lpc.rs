//! How blocks of samples are laid out for linear predictive coding.
//!
//! A coded block is five coefficients followed by twenty residuals.
use vstd::prelude::*;

verus! {

/// How many samples a block has.
pub const BLOCK_SIZE: usize = 20;

/// How many coefficients stand in front of a coded block.
pub const ORDER: usize = 5;

/// The coefficients of a coded block.
pub open spec fn coefficients<S>(coded: Seq<S>) -> Seq<S> {
    coded.take(5)
}

/// The residuals of a coded block.
pub open spec fn residuals<S>(coded: Seq<S>) -> Seq<S> {
    coded.skip(5)
}

/// Codes a block with `filter`, which is given what stands in the place of the
/// coefficients and the samples, and gives back the coefficients and the residuals.
pub fn encode<S: Copy, F: Fn([S; 5], [S; 20]) -> ([S; 5], [S; 20])>(
    values: &[S; 20],
    coded: &mut [S; 25],
    filter: &F,
)
    requires
        forall|place: [S; 5]|
            place@ == coefficients(old(coded)@) ==> call_requires(filter, (place, *values)),
    ensures
        exists|place: [S; 5], result: ([S; 5], [S; 20])|
            {
                &&& place@ == coefficients(old(coded)@)
                &&& #[trigger] call_ensures(filter, (place, *values), result)
                &&& coefficients(final(coded)@) == result.0@
                &&& residuals(final(coded)@) == result.1@
                &&& final(coded)@ == result.0@ + result.1@
            },
{
    let place: [S; 5] = [coded[0], coded[1], coded[2], coded[3], coded[4]];
    assert(place@ =~= coefficients(coded@));
    let result = filter(place, *values);
    let mut i: usize = 0;
    while i < 5
        invariant
            i <= 5,
            coded@.len() == 25,
            coded@.take(i as int) =~= result.0@.take(i as int),
        decreases 5 - i,
    {
        coded[i] = result.0[i];
        i += 1;
    }
    let mut j: usize = 0;
    while j < 20
        invariant
            j <= 20,
            coded@.len() == 25,
            coefficients(coded@) =~= result.0@,
            coded@.subrange(5, 5 + j) =~= result.1@.take(j as int),
        decreases 20 - j,
    {
        coded[5 + j] = result.1[j];
        j += 1;
    }
    assert(residuals(coded@) =~= result.1@);
    assert(coded@ =~= result.0@ + result.1@);
}

/// Decodes a block with `filter`, which is given the coefficients and the residuals and
/// gives back the samples.
pub fn decode<S: Copy, F: Fn([S; 5], [S; 20]) -> [S; 20]>(
    coded: &[S; 25],
    values: &mut [S; 20],
    filter: &F,
)
    requires
        forall|place: [S; 5], rest: [S; 20]|
            place@ == coefficients(coded@) && rest@ == residuals(coded@) ==> call_requires(
                filter,
                (place, rest),
            ),
    ensures
        exists|place: [S; 5], rest: [S; 20]|
            {
                &&& place@ == coefficients(coded@)
                &&& rest@ == residuals(coded@)
                &&& #[trigger] call_ensures(filter, (place, rest), *final(values))
            },
{
    let place: [S; 5] = [coded[0], coded[1], coded[2], coded[3], coded[4]];
    assert(place@ =~= coefficients(coded@));
    let rest: [S; 20] = [
        coded[5],
        coded[6],
        coded[7],
        coded[8],
        coded[9],
        coded[10],
        coded[11],
        coded[12],
        coded[13],
        coded[14],
        coded[15],
        coded[16],
        coded[17],
        coded[18],
        coded[19],
        coded[20],
        coded[21],
        coded[22],
        coded[23],
        coded[24],
    ];
    assert(rest@ =~= residuals(coded@));
    *values = filter(place, rest);
}

/// A coded block is its five coefficients and then its residuals.
pub proof fn law_a_block_is_its_two_parts<S>(coded: Seq<S>)
    requires
        coded.len() == 25,
    ensures
        coefficients(coded).len() == 5,
        residuals(coded).len() == 20,
        coefficients(coded) + residuals(coded) == coded,
{
    assert(coefficients(coded) + residuals(coded) =~= coded);
}

} // verus!
