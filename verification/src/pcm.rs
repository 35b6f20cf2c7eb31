//! Layout of 16-bit PCM: interleaved (`[sample][channel]` flattened, as the
//! FDK library reads and writes it) and planar (`[channel][sample]`).

use vstd::prelude::*;

verus! {

/// Sample `s` of a channel, or silence where the channel is shorter.
pub open spec fn sample_or_silence(channel: Seq<i16>, s: int) -> i16 {
    if 0 <= s < channel.len() {
        channel[s]
    } else {
        0i16
    }
}

/// `frame_size` samples of each of `channels` planar channels, interleaved:
/// position `i` holds sample `i / channels` of channel `i % channels`.
/// Missing samples are silence; samples past `frame_size` are left out.
pub open spec fn interleaved(planar: Seq<Seq<i16>>, channels: nat, frame_size: nat) -> Seq<i16> {
    Seq::new(
        frame_size * channels,
        |i: int| sample_or_silence(planar[i % (channels as int)], i / (channels as int)),
    )
}

/// The first `frame_size * channels` samples of an interleaved buffer,
/// split into `channels` planar channels of `frame_size` samples each.
pub open spec fn deinterleaved(pcm: Seq<i16>, channels: nat, frame_size: nat) -> Seq<Seq<i16>> {
    Seq::new(
        channels,
        |c: int| Seq::new(frame_size, |s: int| pcm[s * (channels as int) + c]),
    )
}

/// Position `s * channels + c` lies inside the frame and names sample `s`
/// of channel `c`.
pub proof fn lemma_grid_index(s: int, c: int, channels: int, frame_size: int)
    requires
        0 <= s < frame_size,
        0 <= c < channels,
    ensures
        0 <= s * channels + c < frame_size * channels,
        (s * channels + c) / channels == s,
        (s * channels + c) % channels == c,
{
    assert(0 <= s * channels) by (nonlinear_arith)
        requires
            0 <= s,
            0 <= c < channels,
    ;
    assert(s * channels + c < frame_size * channels) by (nonlinear_arith)
        requires
            0 <= s < frame_size,
            0 <= c < channels,
    ;
    vstd::arithmetic::div_mod::lemma_fundamental_div_mod_converse(s * channels + c, channels, s, c);
}

/// Interleave `frame_size` samples of each planar channel.
pub fn interleave(planar: &[Vec<i16>], frame_size: usize) -> (r: Vec<i16>)
    requires
        planar@.len() > 0,
        frame_size * planar@.len() <= usize::MAX,
    ensures
        r@ == interleaved(planar.deep_view(), planar@.len(), frame_size as nat),
        r@.len() == frame_size * planar@.len(),
        forall|s: int, c: int|
            0 <= s < frame_size && 0 <= c < planar@.len() ==> #[trigger] r@[s * planar@.len()
                + c] == if s < planar@[c]@.len() {
                planar@[c]@[s]
            } else {
                0i16
            },
{
    let channels = planar.len();
    let ghost p = planar.deep_view();
    let mut out: Vec<i16> = Vec::new();
    let mut s: usize = 0;
    while s < frame_size
        invariant
            0 < channels == planar@.len() == p.len(),
            p == planar.deep_view(),
            frame_size * channels <= usize::MAX,
            s <= frame_size,
            out@.len() == s * channels,
            forall|i: int|
                0 <= i < out@.len() ==> #[trigger] out@[i] == sample_or_silence(
                    p[i % (channels as int)],
                    i / (channels as int),
                ),
        decreases frame_size - s,
    {
        let mut c: usize = 0;
        while c < channels
            invariant
                0 < channels == planar@.len() == p.len(),
                p == planar.deep_view(),
                frame_size * channels <= usize::MAX,
                s < frame_size,
                c <= channels,
                out@.len() == s * channels + c,
                forall|i: int|
                    0 <= i < out@.len() ==> #[trigger] out@[i] == sample_or_silence(
                        p[i % (channels as int)],
                        i / (channels as int),
                    ),
            decreases channels - c,
        {
            proof {
                lemma_grid_index(s as int, c as int, channels as int, frame_size as int);
            }
            let x: i16 = if s < planar[c].len() {
                planar[c][s]
            } else {
                0
            };
            assert(p[c as int] == planar@[c as int]@);
            out.push(x);
            c = c + 1;
        }
        proof {
            assert((s + 1) * channels == s * channels + channels) by (nonlinear_arith);
        }
        s = s + 1;
    }
    proof {
        assert(out@ =~= interleaved(p, channels as nat, frame_size as nat));
        assert forall|s: int, c: int| 0 <= s < frame_size && 0 <= c < channels implies #[trigger] out@[s
            * channels + c] == if s < planar@[c]@.len() {
            planar@[c]@[s]
        } else {
            0i16
        } by {
            lemma_grid_index(s, c, channels as int, frame_size as int);
            assert(p[c] == planar@[c]@);
        }
    }
    out
}

/// Split the first `frame_size * channels` interleaved samples into planar channels.
pub fn deinterleave(pcm: &[i16], channels: usize, frame_size: usize) -> (r: Vec<Vec<i16>>)
    requires
        frame_size * channels <= pcm@.len(),
    ensures
        r.deep_view() == deinterleaved(pcm@, channels as nat, frame_size as nat),
        r@.len() == channels,
        forall|c: int| 0 <= c < channels ==> (#[trigger] r@[c])@.len() == frame_size,
        forall|c: int, s: int|
            0 <= c < channels && 0 <= s < frame_size ==> #[trigger] r@[c]@[s] == pcm@[s
                * channels + c],
{
    let n = pcm.len();
    let mut planar: Vec<Vec<i16>> = Vec::new();
    let mut c: usize = 0;
    while c < channels
        invariant
            n == pcm@.len(),
            frame_size * channels <= pcm@.len(),
            c <= channels,
            planar@.len() == c,
            forall|k: int|
                0 <= k < c ==> #[trigger] planar@[k]@ == Seq::new(
                    frame_size as nat,
                    |s: int| pcm@[s * (channels as int) + k],
                ),
        decreases channels - c,
    {
        let mut channel: Vec<i16> = Vec::new();
        let mut s: usize = 0;
        while s < frame_size
            invariant
                n == pcm@.len(),
                frame_size * channels <= pcm@.len(),
                c < channels,
                s <= frame_size,
                channel@.len() == s,
                forall|j: int|
                    0 <= j < s ==> #[trigger] channel@[j] == pcm@[j * (channels as int) + c],
            decreases frame_size - s,
        {
            proof {
                lemma_grid_index(s as int, c as int, channels as int, frame_size as int);
            }
            channel.push(pcm[s * channels + c]);
            s = s + 1;
        }
        assert(channel@ =~= Seq::new(frame_size as nat, |s: int| pcm@[s * (channels as int) + c]));
        planar.push(channel);
        c = c + 1;
    }
    let ghost want = deinterleaved(pcm@, channels as nat, frame_size as nat);
    assert forall|k: int| 0 <= k < channels implies #[trigger] planar.deep_view()[k] =~= want[k] by {
        assert(planar.deep_view()[k] == planar@[k].deep_view());
    }
    assert(planar.deep_view() =~= want);
    assert forall|c: int, s: int|
        0 <= c < channels && 0 <= s < frame_size implies #[trigger] planar@[c]@[s] == pcm@[s
            * channels + c] by {
        assert(planar@[c]@ == Seq::new(frame_size as nat, |s: int| pcm@[s * (channels as int) + c]));
    }
    planar
}

/// Deinterleaving what interleaving produced gives back the planar channels,
/// when every channel holds exactly `frame_size` samples.
pub proof fn lemma_deinterleave_interleave(planar: Seq<Seq<i16>>, frame_size: nat)
    requires
        planar.len() > 0,
        forall|c: int| 0 <= c < planar.len() ==> (#[trigger] planar[c]).len() == frame_size,
    ensures
        deinterleaved(interleaved(planar, planar.len(), frame_size), planar.len(), frame_size)
            == planar,
{
    let channels = planar.len();
    let flat = interleaved(planar, channels, frame_size);
    let back = deinterleaved(flat, channels, frame_size);
    assert forall|c: int| 0 <= c < channels implies #[trigger] back[c] =~= planar[c] by {
        assert forall|s: int| 0 <= s < frame_size implies #[trigger] back[c][s] == planar[c][s] by {
            lemma_grid_index(s, c, channels as int, frame_size as int);
        }
    }
    assert(back =~= planar);
}

/// A deinterleaved frame has `channels` channels of `frame_size` samples each.
pub proof fn lemma_deinterleaved_shape(pcm: Seq<i16>, channels: nat, frame_size: nat)
    ensures
        deinterleaved(pcm, channels, frame_size).len() == channels,
        forall|c: int|
            0 <= c < channels ==> (#[trigger] deinterleaved(pcm, channels, frame_size)[c]).len()
                == frame_size,
{
}

/// Deinterleaving takes sample `s` of channel `c` from position
/// `s * channels + c`, and so reads only the first `frame_size * channels`
/// samples of the buffer: any longer buffer with the same prefix gives the
/// same channels.
pub proof fn lemma_deinterleaved_reads_frame_prefix(pcm: Seq<i16>, channels: nat, frame_size: nat)
    requires
        frame_size * channels <= pcm.len(),
    ensures
        forall|c: int, s: int|
            0 <= c < channels && 0 <= s < frame_size ==> #[trigger] deinterleaved(
                pcm,
                channels,
                frame_size,
            )[c][s] == pcm[s * channels + c],
        deinterleaved(pcm, channels, frame_size) == deinterleaved(
            pcm.take((frame_size * channels) as int),
            channels,
            frame_size,
        ),
{
    let prefix = pcm.take((frame_size * channels) as int);
    let a = deinterleaved(pcm, channels, frame_size);
    let b = deinterleaved(prefix, channels, frame_size);
    assert forall|c: int| 0 <= c < channels implies #[trigger] a[c] =~= b[c] by {
        assert forall|s: int| 0 <= s < frame_size implies #[trigger] a[c][s] == b[c][s] by {
            lemma_grid_index(s, c, channels as int, frame_size as int);
        }
    }
    assert(a =~= b);
}

/// Interleaving puts sample `s` of channel `c` (silence where the channel is
/// shorter) at position `s * channels + c`, for every sample of the frame.
pub proof fn lemma_interleaved_positions(planar: Seq<Seq<i16>>, frame_size: nat)
    requires
        planar.len() > 0,
    ensures
        interleaved(planar, planar.len(), frame_size).len() == frame_size * planar.len(),
        forall|s: int, c: int|
            0 <= s < frame_size && 0 <= c < planar.len() ==> #[trigger] interleaved(
                planar,
                planar.len(),
                frame_size,
            )[s * planar.len() + c] == if s < planar[c].len() {
                planar[c][s]
            } else {
                0i16
            },
{
    assert forall|s: int, c: int| 0 <= s < frame_size && 0 <= c < planar.len() implies #[trigger] interleaved(
        planar,
        planar.len(),
        frame_size,
    )[s * planar.len() + c] == if s < planar[c].len() {
        planar[c][s]
    } else {
        0i16
    } by {
        lemma_grid_index(s, c, planar.len() as int, frame_size as int);
    }
}

} // verus!
