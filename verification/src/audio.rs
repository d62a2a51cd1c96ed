use vstd::prelude::*;

use crate::text::{decimal, push_decimal};

verus! {

/// An input device as listed to the user.
#[derive(Clone)]
pub struct AudioDevice {
    pub name: String,
}

/// Which channel(s) to use from a multi-channel device.
#[derive(Debug, Clone, Copy, PartialEq, Eq, Structural)]
pub enum ChannelMode {
    /// Mix all channels down to mono.
    All,
    /// Use a specific channel (0-indexed).
    Single(u16),
}

impl ChannelMode {
    /// The text shown for the channel mode: `All (<n> ch)` or `Channel <k>`,
    /// where `k` counts from 1.
    pub open spec fn spec_display(self, max_channels: u16) -> Seq<char> {
        match self {
            ChannelMode::All => seq!['A', 'l', 'l', ' ', '('] + decimal(max_channels as nat)
                + seq![' ', 'c', 'h', ')'],
            ChannelMode::Single(ch) => seq!['C', 'h', 'a', 'n', 'n', 'e', 'l', ' '] + decimal(
                ch as nat + 1,
            ),
        }
    }

    pub fn display(&self, max_channels: u16) -> (r: String)
        requires
            self matches ChannelMode::Single(ch) ==> ch < u16::MAX,
        ensures
            r@ == self.spec_display(max_channels),
    {
        proof {
            reveal_strlit("All (");
            reveal_strlit(" ch)");
            reveal_strlit("Channel ");
        }
        match self {
            ChannelMode::All => {
                let mut s = String::from_str("All (");
                push_decimal(&mut s, max_channels as u64);
                s.append(" ch)");
                s
            },
            ChannelMode::Single(ch) => {
                let mut s = String::from_str("Channel ");
                push_decimal(&mut s, (*ch + 1) as u64);
                s
            },
        }
    }
}

/// How a block of interleaved samples becomes one mono signal.
#[derive(Debug, Clone, Copy, PartialEq, Eq, Structural)]
pub enum ChannelPlan {
    /// The device has at most one channel: the samples are used as they are.
    Copy,
    /// Average each complete frame of `channels` samples; `frames` frames.
    Mix { channels: usize, frames: usize },
    /// Take every `stride`-th sample starting at `start`.
    Pick { start: usize, stride: usize },
}

/// How `extract_channel` treats `len` interleaved samples from a device with
/// `total_channels` channels in the given mode. A single channel that the
/// device does not have falls back to the first channel.
pub open spec fn spec_channel_plan(len: nat, total_channels: u16, mode: ChannelMode) -> ChannelPlan {
    let ch = total_channels as nat;
    if ch <= 1 {
        ChannelPlan::Copy
    } else {
        match mode {
            ChannelMode::All => ChannelPlan::Mix { channels: ch as usize, frames: (len / ch) as usize },
            ChannelMode::Single(c) => ChannelPlan::Pick {
                start: if c >= total_channels { 0 } else { c as usize },
                stride: ch as usize,
            },
        }
    }
}

/// What each channel mode makes of a block of `len` samples from a device
/// with `n` channels: with one channel (or none) the block is used as it is;
/// with several, "all channels" averages every complete frame of `n`
/// samples, and channel `c` of the device takes every `n`-th sample from
/// position `c` in the block, which is channel `c` itself; a channel the
/// device does not have takes the first channel.
pub proof fn lemma_channel_plan_picks_chosen_channel(len: nat, n: u16, c: u16)
    ensures
        n <= 1 ==> spec_channel_plan(len, n, ChannelMode::All) == ChannelPlan::Copy
            && spec_channel_plan(len, n, ChannelMode::Single(c)) == ChannelPlan::Copy,
        n > 1 ==> spec_channel_plan(len, n, ChannelMode::All) == (ChannelPlan::Mix {
            channels: n as usize,
            frames: (len / (n as nat)) as usize,
        }),
        n > 1 && c < n ==> spec_channel_plan(len, n, ChannelMode::Single(c)) == (ChannelPlan::Pick {
            start: c as usize,
            stride: n as usize,
        }),
        n > 1 && c >= n ==> spec_channel_plan(len, n, ChannelMode::Single(c)) == (ChannelPlan::Pick {
            start: 0,
            stride: n as usize,
        }),
{
}

/// A picked channel's samples all sit at that channel's place in their
/// frame: with stride `n` and start `c < n`, the `k`-th sample taken is
/// sample `c` of frame `k`.
pub proof fn lemma_pick_is_channel_of_each_frame(c: int, n: int, k: int)
    requires
        0 <= c < n,
        0 <= k,
    ensures
        (c + k * n) % n == c,
        (c + k * n) / n == k,
{
    vstd::arithmetic::div_mod::lemma_fundamental_div_mod_converse(c + k * n, n, k, c);
}

pub fn channel_plan(len: usize, total_channels: u16, mode: ChannelMode) -> (r: ChannelPlan)
    ensures
        r == spec_channel_plan(len as nat, total_channels, mode),
{
    let ch = total_channels as usize;
    if ch <= 1 {
        return ChannelPlan::Copy;
    }
    match mode {
        ChannelMode::All => ChannelPlan::Mix { channels: ch, frames: len / ch },
        ChannelMode::Single(channel) => {
            if channel >= total_channels {
                ChannelPlan::Pick { start: 0, stride: ch }
            } else {
                ChannelPlan::Pick { start: channel as usize, stride: ch }
            }
        },
    }
}

/// The number of indices `start, start + stride, ...` below `len`.
pub open spec fn strided_count(len: nat, start: nat, stride: nat) -> nat {
    if start >= len || stride == 0 {
        0
    } else {
        ((len - start - 1) as nat / stride + 1) as nat
    }
}

proof fn lemma_strided_index_in_range(len: int, start: int, stride: int, k: int)
    requires
        stride > 0,
        0 <= start < len,
        0 <= k < strided_count(len as nat, start as nat, stride as nat),
    ensures
        0 <= k * stride,
        start + k * stride < len,
{
    let q = (len - start - 1) / stride;
    assert(k <= q);
    assert(k * stride <= q * stride) by (nonlinear_arith)
        requires
            0 <= k <= q,
            stride > 0,
    ;
    assert(0 <= k * stride) by (nonlinear_arith)
        requires
            0 <= k,
            stride > 0,
    ;
    assert(q * stride <= len - start - 1) by (nonlinear_arith)
        requires
            q == (len - start - 1) / stride,
            len - start - 1 >= 0,
            stride > 0,
    ;
}

/// The samples at `start`, `start + stride`, `start + 2 * stride`, ... of `data`.
pub fn take_strided<T: Copy>(data: &[T], start: usize, stride: usize) -> (r: Vec<T>)
    requires
        stride > 0,
    ensures
        r@.len() == strided_count(data@.len(), start as nat, stride as nat),
        forall|k: int| 0 <= k < r@.len() ==> #[trigger] r@[k] == data@[start + k * stride],
{
    let len = data.len();
    let n: usize = if start >= len {
        0
    } else {
        (len - start - 1) / stride + 1
    };
    let mut r: Vec<T> = Vec::new();
    let mut k: usize = 0;
    while k < n
        invariant
            stride > 0,
            len == data@.len(),
            n == strided_count(data@.len(), start as nat, stride as nat),
            k <= n,
            r@.len() == k,
            forall|j: int| 0 <= j < r@.len() ==> #[trigger] r@[j] == data@[start + j * stride],
        decreases n - k,
    {
        proof {
            lemma_strided_index_in_range(data@.len() as int, start as int, stride as int, k as int);
        }
        let idx = start + k * stride;
        r.push(data[idx]);
        k = k + 1;
    }
    r
}

/// The name given to a device whose description cannot be read.
pub open spec fn spec_fallback_device_name(index: usize) -> Seq<char> {
    seq!['D', 'e', 'v', 'i', 'c', 'e', ' '] + decimal(index as nat)
}

/// `Device <index>`, the name of a device whose description cannot be read.
pub fn fallback_device_name(index: usize) -> (r: String)
    ensures
        r@ == spec_fallback_device_name(index),
{
    proof {
        reveal_strlit("Device ");
    }
    let mut s = String::from_str("Device ");
    push_decimal(&mut s, index as u64);
    s
}

/// The index of the default input device among the listed ones. When the
/// system names a default device (`default_known`), it is the first listed
/// device that is the default (`is_default[i]`), or none; otherwise it is
/// the first device, if any is listed.
pub fn default_device_index(default_known: bool, is_default: &Vec<bool>) -> (r: Option<usize>)
    ensures
        default_known ==> (r is None <==> forall|j: int|
            0 <= j < is_default@.len() ==> !#[trigger] is_default@[j]),
        default_known ==> (r matches Some(i) ==> i < is_default@.len() && is_default@[i as int]
            && forall|j: int| 0 <= j < i ==> !#[trigger] is_default@[j]),
        !default_known ==> r == (if is_default@.len() > 0 {
            Some(0usize)
        } else {
            None
        }),
{
    if default_known {
        let mut i: usize = 0;
        while i < is_default.len()
            invariant
                default_known,
                i <= is_default@.len(),
                forall|j: int| 0 <= j < i ==> !#[trigger] is_default@[j],
            decreases is_default@.len() - i,
        {
            if is_default[i] {
                return Some(i);
            }
            i = i + 1;
        }
        None
    } else if is_default.len() > 0 {
        Some(0)
    } else {
        None
    }
}

} // verus!
