//! Statistics of a preview image: per-channel minima, maxima and histograms.

use vstd::prelude::*;

use crate::frame::RgbImage;

verus! {

/// Smallest sample of a channel, or the largest representable sample for an
/// empty channel.
pub open spec fn seq_min(s: Seq<u16>) -> u16
    decreases s.len(),
{
    if s.len() == 0 {
        u16::MAX
    } else if s.last() < seq_min(s.drop_last()) {
        s.last()
    } else {
        seq_min(s.drop_last())
    }
}

/// Largest sample of a channel, or zero for an empty channel.
pub open spec fn seq_max(s: Seq<u16>) -> u16
    decreases s.len(),
{
    if s.len() == 0 {
        0
    } else if s.last() > seq_max(s.drop_last()) {
        s.last()
    } else {
        seq_max(s.drop_last())
    }
}

/// The histogram bin a sample falls into, given the channel's minimum and
/// maximum and the number of bins.  Samples at the maximum land one past the
/// last bin and are discarded.
pub open spec fn bin_index(p: u16, min: u16, max: u16, size: int) -> int {
    let divisor = if max - min > 1 {
        max - min
    } else {
        1
    };
    (p - min) * size / divisor
}

/// How many samples of the channel fall into bin `k`.
pub open spec fn bin_count(s: Seq<u16>, min: u16, max: u16, size: int, k: int) -> int
    decreases s.len(),
{
    if s.len() == 0 {
        0
    } else {
        bin_count(s.drop_last(), min, max, size, k) + if bin_index(s.last(), min, max, size)
            == k {
            1int
        } else {
            0int
        }
    }
}

/// The channel minimum is a lower bound on every sample.
pub proof fn lemma_seq_min_le(s: Seq<u16>, k: int)
    requires
        0 <= k < s.len(),
    ensures
        seq_min(s) <= s[k],
    decreases s.len(),
{
    if k < s.len() - 1 {
        lemma_seq_min_le(s.drop_last(), k);
    }
}

/// Minimum and maximum sample of a channel.
#[derive(Clone, Copy, PartialEq, Eq, Structural, Debug)]
pub struct ChannelStats {
    pub min: u16,
    pub max: u16,
}

/// Sample distribution of one channel.
#[derive(Clone, PartialEq, Eq, Debug)]
pub struct Histogram {
    pub bins: Vec<u32>,
    pub min: u16,
    pub max: u16,
}

/// Statistics of a whole preview image.
#[derive(Clone, PartialEq, Eq, Debug)]
pub struct ImageStats {
    pub total: ChannelStats,
    pub r: Histogram,
    pub g: Histogram,
    pub b: Histogram,
}

impl Histogram {
    pub fn stats(&self) -> (r: ChannelStats)
        ensures
            r.min == self.min,
            r.max == self.max,
    {
        ChannelStats { min: self.min, max: self.max }
    }

    /// The largest bin population.
    pub fn max_count(&self) -> (r: usize)
        ensures
            forall|k: int| 0 <= k < self.bins@.len() ==> self.bins@[k] <= r,
            self.bins@.len() == 0 ==> r == 0,
            self.bins@.len() > 0 ==> exists|k: int|
                0 <= k < self.bins@.len() && self.bins@[k] == r,
    {
        let mut best: u32 = 0;
        let n = self.bins.len();
        let mut i: usize = 0;
        while i < n
            invariant
                i <= n,
                n == self.bins@.len(),
                forall|k: int| 0 <= k < i ==> self.bins@[k] <= best,
                i == 0 ==> best == 0,
                i > 0 ==> exists|k: int| 0 <= k < i && self.bins@[k] == best,
            decreases n - i,
        {
            if i == 0 || self.bins[i] > best {
                best = self.bins[i];
            }
            i = i + 1;
        }
        best as usize
    }
}

/// Scans one channel for its smallest and largest sample.
pub fn compute_channel_stats(channel: &Vec<u16>) -> (r: ChannelStats)
    ensures
        r.min == seq_min(channel@),
        r.max == seq_max(channel@),
{
    let mut min_value: u16 = u16::MAX;
    let mut max_value: u16 = 0;
    let n = channel.len();
    proof {
        assert(channel@.subrange(0, 0) =~= Seq::<u16>::empty());
    }
    let mut i: usize = 0;
    while i < n
        invariant
            i <= n,
            n == channel@.len(),
            min_value == seq_min(channel@.subrange(0, i as int)),
            max_value == seq_max(channel@.subrange(0, i as int)),
        decreases n - i,
    {
        let p = channel[i];
        proof {
            let pre = channel@.subrange(0, i as int);
            let post = channel@.subrange(0, i as int + 1);
            assert(post.drop_last() =~= pre);
            assert(post.last() == channel@[i as int]);
        }
        if p < min_value {
            min_value = p;
        }
        if p > max_value {
            max_value = p;
        }
        i = i + 1;
    }
    proof {
        assert(channel@.subrange(0, n as int) =~= channel@);
    }
    ChannelStats { min: min_value, max: max_value }
}

/// Bins one channel into a histogram of `size` bins spanning the given
/// sample range.  A sample right at the top of the range falls one past the
/// last bin and is not counted, as the bin formula has it.
pub fn compute_histogram(channel: &Vec<u16>, size: usize, stats: ChannelStats) -> (r: Histogram)
    requires
        size * 65535 <= usize::MAX,
        channel@.len() <= u32::MAX,
        forall|k: int| 0 <= k < channel@.len() ==> stats.min <= #[trigger] channel@[k],
    ensures
        r.min == stats.min,
        r.max == stats.max,
        r.bins@.len() == size,
        forall|k: int|
            0 <= k < size ==> #[trigger] r.bins@[k] == bin_count(
                channel@,
                stats.min,
                stats.max,
                size as int,
                k,
            ),
{
    let mut bins: Vec<u32> = Vec::new();
    let mut j: usize = 0;
    while j < size
        invariant
            j <= size,
            bins@.len() == j,
            forall|k: int| 0 <= k < j ==> #[trigger] bins@[k] == 0,
        decreases size - j,
    {
        bins.push(0);
        j = j + 1;
    }
    let divisor: usize = if stats.max > stats.min && (stats.max - stats.min) > 1 {
        (stats.max - stats.min) as usize
    } else {
        1
    };
    proof {
        assert forall|k: int| 0 <= k < size implies #[trigger] bins@[k] == bin_count(
            channel@.subrange(0, 0),
            stats.min,
            stats.max,
            size as int,
            k,
        ) by {
            assert(channel@.subrange(0, 0) =~= Seq::<u16>::empty());
        }
    }
    let n = channel.len();
    let mut i: usize = 0;
    while i < n
        invariant
            i <= n,
            n == channel@.len(),
            n <= u32::MAX,
            size * 65535 <= usize::MAX,
            bins@.len() == size,
            divisor == (if stats.max - stats.min > 1 {
                stats.max - stats.min
            } else {
                1
            }),
            forall|k: int| 0 <= k < channel@.len() ==> stats.min <= #[trigger] channel@[k],
            forall|k: int|
                0 <= k < size ==> #[trigger] bins@[k] == bin_count(
                    channel@.subrange(0, i as int),
                    stats.min,
                    stats.max,
                    size as int,
                    k,
                ),
            forall|k: int| 0 <= k < size ==> #[trigger] bins@[k] <= i,
        decreases n - i,
    {
        let p = channel[i];
        proof {
            assert((p - stats.min) as usize * size <= 65535 * size) by (nonlinear_arith)
                requires
                    0 <= p - stats.min <= 65535,
                    0 <= size,
            ;
            assert(65535 * size == size * 65535) by (nonlinear_arith);
        }
        let idx = (p - stats.min) as usize * size / divisor;
        let ghost pre_bins = bins@;
        if idx < bins.len() {
            let count = bins[idx];
            bins.set(idx, count + 1);
        }
        proof {
            let cpre = channel@.subrange(0, i as int);
            let cpost = channel@.subrange(0, i as int + 1);
            assert(cpost.drop_last() =~= cpre);
            assert(cpost.last() == channel@[i as int]);
            assert(idx == bin_index(channel@[i as int], stats.min, stats.max, size as int));
            assert forall|k: int| 0 <= k < size implies #[trigger] bins@[k] == bin_count(
                cpost,
                stats.min,
                stats.max,
                size as int,
                k,
            ) by {
                if k == idx {
                    assert(bins@[k] == pre_bins[k] + 1);
                } else {
                    assert(bins@[k] == pre_bins[k]);
                }
            }
        }
        i = i + 1;
    }
    proof {
        assert(channel@.subrange(0, n as int) =~= channel@);
    }
    Histogram { bins, min: stats.min, max: stats.max }
}

/// Computes per-channel histograms and the combined sample range of a
/// preview image.
pub fn compute_image_stats(image: &RgbImage, size: usize) -> (r: ImageStats)
    requires
        size * 65535 <= usize::MAX,
        image.red@.len() <= u32::MAX,
        image.green@.len() <= u32::MAX,
        image.blue@.len() <= u32::MAX,
    ensures
        r.r.min == seq_min(image.red@) && r.r.max == seq_max(image.red@),
        r.g.min == seq_min(image.green@) && r.g.max == seq_max(image.green@),
        r.b.min == seq_min(image.blue@) && r.b.max == seq_max(image.blue@),
        r.r.bins@.len() == size && r.g.bins@.len() == size && r.b.bins@.len() == size,
        forall|k: int|
            0 <= k < size ==> #[trigger] r.r.bins@[k] == bin_count(
                image.red@,
                r.r.min,
                r.r.max,
                size as int,
                k,
            ),
        forall|k: int|
            0 <= k < size ==> #[trigger] r.g.bins@[k] == bin_count(
                image.green@,
                r.g.min,
                r.g.max,
                size as int,
                k,
            ),
        forall|k: int|
            0 <= k < size ==> #[trigger] r.b.bins@[k] == bin_count(
                image.blue@,
                r.b.min,
                r.b.max,
                size as int,
                k,
            ),
        r.total.min == min3(r.r.min, r.g.min, r.b.min),
        r.total.max == max3(r.r.max, r.g.max, r.b.max),
{
    let red_stats = compute_channel_stats(&image.red);
    let green_stats = compute_channel_stats(&image.green);
    let blue_stats = compute_channel_stats(&image.blue);
    proof {
        assert forall|k: int| 0 <= k < image.red@.len() implies red_stats.min
            <= #[trigger] image.red@[k] by {
            lemma_seq_min_le(image.red@, k);
        }
        assert forall|k: int| 0 <= k < image.green@.len() implies green_stats.min
            <= #[trigger] image.green@[k] by {
            lemma_seq_min_le(image.green@, k);
        }
        assert forall|k: int| 0 <= k < image.blue@.len() implies blue_stats.min
            <= #[trigger] image.blue@[k] by {
            lemma_seq_min_le(image.blue@, k);
        }
    }
    let r = compute_histogram(&image.red, size, red_stats);
    let g = compute_histogram(&image.green, size, green_stats);
    let b = compute_histogram(&image.blue, size, blue_stats);
    let mut total_min: u16 = red_stats.min;
    if green_stats.min < total_min {
        total_min = green_stats.min;
    }
    if blue_stats.min < total_min {
        total_min = blue_stats.min;
    }
    let mut total_max: u16 = red_stats.max;
    if green_stats.max > total_max {
        total_max = green_stats.max;
    }
    if blue_stats.max > total_max {
        total_max = blue_stats.max;
    }
    ImageStats { total: ChannelStats { min: total_min, max: total_max }, r, g, b }
}

/// The least of three values.
pub open spec fn min3(a: u16, b: u16, c: u16) -> u16 {
    let ab = if b < a {
        b
    } else {
        a
    };
    if c < ab {
        c
    } else {
        ab
    }
}

/// The greatest of three values.
pub open spec fn max3(a: u16, b: u16, c: u16) -> u16 {
    let ab = if b > a {
        b
    } else {
        a
    };
    if c > ab {
        c
    } else {
        ab
    }
}

} // verus!
