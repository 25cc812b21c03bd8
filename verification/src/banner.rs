//! The banner of a message: one of the template's background images, drawn
//! at random with the chance that its weight gives it.

use vstd::prelude::*;
use rand::distributions::{Distribution, WeightedIndex};
use rand::thread_rng;

verus! {

/// What the template says of one background image.
#[derive(Debug, PartialEq, Eq)]
pub struct Banner {
    /// Where the image is, if the template says so.
    pub url: Option<String>,
    /// The weight that the template gives the image, if it gives one.
    pub weight: Option<u64>,
}

/// Why no banner could be selected.
#[derive(Clone, Copy, Debug, PartialEq, Eq, Structural)]
pub enum BannerError {
    /// There is nothing to draw from: no banner at all, none with a weight
    /// above zero, or weights whose sum is beyond the range of `u32`.
    NothingToDraw,
    /// The banner that was drawn has no address.
    NoAddress,
}

/// The weight with which a banner takes part in the draw: the low 32 bits
/// of the weight that the template gives it, and 1 where it gives none.
pub open spec fn share(weight: Option<u64>) -> u32 {
    match weight {
        Some(w) => (w % 0x1_0000_0000) as u32,
        None => 1,
    }
}

/// The weights with which the banners take part, in order.
pub open spec fn shares(banners: Seq<Banner>) -> Seq<u32> {
    Seq::new(banners.len(), |i: int| share(banners[i].weight))
}

/// The sum of the weights.
pub open spec fn total(weights: Seq<u32>) -> int
    decreases weights.len(),
{
    if weights.len() == 0 {
        0
    } else {
        total(weights.drop_last()) + weights.last()
    }
}

/// A draw is possible: there is a weight, the weights do not sum to zero,
/// and their sum is within the range of `u32`.
pub open spec fn drawable(weights: Seq<u32>) -> bool {
    weights.len() > 0 && 0 < total(weights) <= u32::MAX
}

/// `rand::distributions::WeightedIndex::new` on `weights`, then
/// `Distribution::sample` on it with `rand::thread_rng()`. For weights of
/// which there is at least one, which are not all zero and whose sum is
/// within `u32`, the distribution is built without error, and the draw is
/// the index of one of the weights, with a chance in proportion to that
/// weight: so never of a weight that is zero. Which index comes is left
/// open.
#[verifier::external_body]
fn draw(weights: &Vec<u32>) -> (index: usize)
    requires
        drawable(weights@),
    ensures
        index < weights@.len(),
        weights@[index as int] > 0,
{
    WeightedIndex::new(weights).unwrap().sample(&mut thread_rng())
}

/// The weights with which the banners take part in the draw.
pub fn banner_weights(banners: &Vec<Banner>) -> (weights: Vec<u32>)
    ensures
        weights@ == shares(banners@),
{
    let mut weights: Vec<u32> = Vec::new();
    let mut i: usize = 0;
    while i < banners.len()
        invariant
            i <= banners.len(),
            weights.len() == i,
            forall|j: int| 0 <= j < i ==> weights@[j] == share(banners@[j].weight),
        decreases banners.len() - i,
    {
        let weight: u32 = match banners[i].weight {
            Some(w) => {
                assert(w as u32 == (w % 0x1_0000_0000) as u32) by (bit_vector);
                #[verifier::truncate]
                (w as u32)
            },
            None => 1,
        };
        weights.push(weight);
        i += 1;
    }
    assert(weights@ =~= shares(banners@));
    weights
}

/// The sum of a run of weights is the sum of a shorter run of them and of
/// what follows it, and no run sums to less than zero.
proof fn total_grows(weights: Seq<u32>, n: int)
    requires
        0 <= n <= weights.len(),
    ensures
        0 <= total(weights.subrange(0, n)) <= total(weights),
    decreases weights.len() - n,
{
    if n == 0 {
        assert(weights.subrange(0, 0).len() == 0);
        total_is_natural(weights);
    } else if n == weights.len() {
        assert(weights.subrange(0, n) =~= weights);
        total_is_natural(weights);
    } else {
        total_grows(weights, n + 1);
        assert(weights.subrange(0, n + 1).drop_last() =~= weights.subrange(0, n));
        total_is_natural(weights.subrange(0, n));
    }
}

/// No run of weights sums to less than zero.
proof fn total_is_natural(weights: Seq<u32>)
    ensures
        0 <= total(weights),
    decreases weights.len(),
{
    if weights.len() > 0 {
        total_is_natural(weights.drop_last());
    }
}

/// Whether a draw among these weights is possible.
pub fn can_draw(weights: &Vec<u32>) -> (possible: bool)
    ensures
        possible == drawable(weights@),
{
    let mut sum: u32 = 0;
    let mut i: usize = 0;
    while i < weights.len()
        invariant
            i <= weights.len(),
            sum == total(weights@.subrange(0, i as int)),
        decreases weights.len() - i,
    {
        assert(weights@.subrange(0, i + 1).drop_last() =~= weights@.subrange(0, i as int));
        match sum.checked_add(weights[i]) {
            Some(more) => {
                sum = more;
            },
            None => {
                proof {
                    total_grows(weights@, i + 1);
                }
                return false;
            },
        }
        i += 1;
    }
    assert(weights@.subrange(0, i as int) =~= weights@);
    weights.len() > 0 && sum > 0
}

/// Draws one of the banners at random, each with a chance in proportion to
/// its weight, and returns its place among them. No banner is drawn where
/// no draw is possible.
pub fn draw_banner(banners: &Vec<Banner>) -> (drawn: Option<usize>)
    ensures
        drawable(shares(banners@)) ==> (drawn matches Some(i) && i < banners@.len() && share(
            banners@[i as int].weight,
        ) > 0),
        !drawable(shares(banners@)) ==> drawn is None,
{
    let weights = banner_weights(banners);
    if can_draw(&weights) {
        Some(draw(&weights))
    } else {
        None
    }
}

/// What a selection comes to once the draw has been made: the address of
/// the banner that was drawn, or the reason why there is none.
pub open spec fn selected(banners: Seq<Banner>, drawn: Option<usize>) -> Result<
    Seq<char>,
    BannerError,
> {
    match drawn {
        Some(i) if i < banners.len() => match banners[i as int].url {
            Some(url) => Ok(url@),
            None => Err(BannerError::NoAddress),
        },
        _ => Err(BannerError::NothingToDraw),
    }
}

/// The address of the banner at the place that was drawn. A place beyond
/// the banners counts as no draw.
pub fn banner_address(banners: &Vec<Banner>, drawn: Option<usize>) -> (url: Result<
    &str,
    BannerError,
>)
    ensures
        match url {
            Ok(text) => selected(banners@, drawn) == Ok::<Seq<char>, BannerError>(text@),
            Err(e) => selected(banners@, drawn) == Err::<Seq<char>, BannerError>(e),
        },
{
    match drawn {
        Some(i) => if i < banners.len() {
            match &banners[i].url {
                Some(url) => Ok(url.as_str()),
                None => Err(BannerError::NoAddress),
            }
        } else {
            Err(BannerError::NothingToDraw)
        },
        None => Err(BannerError::NothingToDraw),
    }
}

/// Selects the address of a banner at random, by weight.
pub fn select_random_banner(banners: &Vec<Banner>) -> (url: Result<&str, BannerError>)
    ensures
        !drawable(shares(banners@)) ==> url == Err::<&str, BannerError>(
            BannerError::NothingToDraw,
        ),
        drawable(shares(banners@)) ==> exists|i: int|
            0 <= i < banners@.len() && share(#[trigger] banners@[i].weight) > 0 && match url {
                Ok(text) => selected(banners@, Some(i as usize)) == Ok::<Seq<char>, BannerError>(
                    text@,
                ),
                Err(e) => selected(banners@, Some(i as usize)) == Err::<Seq<char>, BannerError>(e),
            },
{
    let drawn = draw_banner(banners);
    let url = banner_address(banners, drawn);
    proof {
        if let Some(i) = drawn {
            assert(share(banners@[i as int].weight) > 0);
        }
    }
    url
}

} // verus!
