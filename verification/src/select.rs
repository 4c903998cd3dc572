//! The random choice of one stream from a listing.
use crate::error::ErrorKind;
use crate::stream::ResponseStreamsData;
use rand::rngs::ThreadRng;
use rand::seq::SliceRandom;
use vstd::prelude::*;

verus! {

/// The handle of the calling thread's random number generator.
#[verifier::external_type_specification]
#[verifier::external_body]
pub struct ExThreadRng(rand::rngs::ThreadRng);

/// `rand::thread_rng` hands out the handle of the calling thread's generator.
/// Nothing is claimed of the numbers that it will give. On its first use in a
/// thread it seeds the generator from the operating system, and stops the
/// program where the system gives no seed.
pub assume_specification[ rand::thread_rng ]() -> (rng: ThreadRng)
;

/// `SliceRandom::choose` on the records of a listing: it returns `None` when
/// the listing is empty and otherwise a reference to one of its elements.
/// Which element that is depends on the generator, and nothing is claimed of
/// it.
#[verifier::external_body]
fn pick(streams: &Vec<ResponseStreamsData>, rng: ThreadRng) -> (picked: Option<&ResponseStreamsData>)
    ensures
        streams@.len() == 0 ==> picked is None,
        streams@.len() > 0 ==> picked is Some,
        picked is Some ==> streams@.contains(*picked.unwrap()),
{
    let mut rng = rng;
    streams.as_slice().choose(&mut rng)
}

/// What a choice amounts to: the record that was picked, copied without a
/// thumbnail, or `EmptyInput` when there was nothing to pick.
pub fn selected(
    picked: Option<&ResponseStreamsData>,
) -> (chosen: Result<ResponseStreamsData, ErrorKind>)
    ensures
        picked is None ==> chosen == Err::<ResponseStreamsData, ErrorKind>(ErrorKind::EmptyInput),
        picked is Some ==> chosen is Ok && chosen.unwrap()@ == picked.unwrap()@.without_image(),
{
    match picked {
        Some(stream) => Ok(stream.without_image()),
        None => Err(ErrorKind::EmptyInput),
    }
}

/// Picks one stream of the listing at random. An empty listing gives
/// `EmptyInput`; any other gives one of its records, whichever the generator
/// decides, copied without a thumbnail.
pub fn choose_stream(
    streams: Vec<ResponseStreamsData>,
) -> (chosen: Result<ResponseStreamsData, ErrorKind>)
    ensures
        streams@.len() == 0 ==> chosen == Err::<ResponseStreamsData, ErrorKind>(
            ErrorKind::EmptyInput,
        ),
        streams@.len() > 0 ==> chosen is Ok,
        chosen is Ok ==> exists|i: int|
            0 <= i < streams@.len() && chosen.unwrap()@ == (#[trigger] streams@[i])@.without_image(),
{
    let picked = pick(&streams, rand::thread_rng());
    selected(picked)
}

} // verus!
