//! Selection of the single highest-resolution variant of a photo: the
//! variant maximizing width times height wins; on a tie the first
//! encountered wins.

use vstd::prelude::*;
use crate::message::{ChatMessage, MessageView, PhotoVariant, PhotoView};

verus! {

/// Pixel area of a variant, the quantity variants are ranked by.
pub open spec fn area(p: PhotoView) -> int {
    p.width * p.height
}

/// Index of the chosen variant of a non-empty variant list: the first one
/// whose area no later variant exceeds.
pub open spec fn best_of(ps: Seq<PhotoView>) -> int
    decreases ps.len(),
{
    if ps.len() <= 1 {
        0
    } else {
        let b = best_of(ps.drop_last());
        if area(ps.last()) > area(ps[b]) {
            ps.len() - 1
        } else {
            b
        }
    }
}

/// `best_of` picks a maximal-area variant, and strictly the first such:
/// every earlier variant has strictly smaller area.
pub proof fn lemma_best_of_first_max(ps: Seq<PhotoView>)
    requires
        ps.len() > 0,
    ensures
        0 <= best_of(ps) < ps.len(),
        forall|j: int| 0 <= j < ps.len() ==> area(#[trigger] ps[j]) <= area(ps[best_of(ps)]),
        forall|j: int| 0 <= j < best_of(ps) ==> area(#[trigger] ps[j]) < area(ps[best_of(ps)]),
    decreases ps.len(),
{
    if ps.len() > 1 {
        lemma_best_of_first_max(ps.drop_last());
        assert(forall|j: int| 0 <= j < ps.len() - 1 ==> ps[j] == ps.drop_last()[j]);
    }
}

/// Pixel area of a variant, computed without overflow: the product of two
/// 32-bit values fits in 64 bits.
pub fn variant_area(p: &PhotoVariant) -> (r: u64)
    ensures
        r as int == area(p@),
{
    proof {
        assert((p.width as int) * (p.height as int) <= 0xffff_ffff * 0xffff_ffff)
            by (nonlinear_arith)
            requires
                p.width as int <= 0xffff_ffff,
                p.height as int <= 0xffff_ffff,
                p.width as int >= 0,
                p.height as int >= 0,
        ;
    }
    (p.width as u64) * (p.height as u64)
}

/// Picks the variant to fetch for one photo: `None` on an empty list,
/// otherwise the first variant of maximal area.
pub fn best_photo_index(photos: &Vec<PhotoVariant>) -> (r: Option<usize>)
    ensures
        r is Some <==> photos@.len() > 0,
        r matches Some(i) ==> i == best_of(photos@.map_values(|p: PhotoVariant| p@)),
{
    let ghost ps = photos@.map_values(|p: PhotoVariant| p@);
    if photos.len() == 0 {
        return None;
    }
    let mut best: usize = 0;
    let mut i: usize = 1;
    while i < photos.len()
        invariant
            1 <= i <= photos.len(),
            0 <= best < i,
            ps == photos@.map_values(|p: PhotoVariant| p@),
            ps.len() == photos.len(),
            best == best_of(ps.take(i as int)),
        decreases photos.len() - i,
    {
        proof {
            assert(ps.take(i + 1).drop_last() =~= ps.take(i as int));
            assert(ps.take(i + 1).last() == ps[i as int]);
            lemma_best_of_first_max(ps.take(i as int));
        }
        let wa = variant_area(&photos[i]);
        let wb = variant_area(&photos[best]);
        if wa > wb {
            best = i;
        }
        i = i + 1;
    }
    proof {
        assert(ps.take(photos.len() as int) =~= ps);
    }
    Some(best)
}

/// The resource id the pipeline will fetch for one message: that of the
/// chosen variant, or `None` when the message carries no photo.
pub open spec fn message_ref(m: MessageView) -> Option<Seq<u8>> {
    if m.photos.len() == 0 {
        None
    } else {
        Some(m.photos[best_of(m.photos)].file_id)
    }
}

/// The resource ids of a batch, in message order, photo-less messages
/// skipped.
pub open spec fn batch_refs(msgs: Seq<MessageView>) -> Seq<Seq<u8>>
    decreases msgs.len(),
{
    if msgs.len() == 0 {
        Seq::empty()
    } else {
        batch_refs(msgs.drop_last()) + match message_ref(msgs.last()) {
            Some(f) => seq![f],
            None => Seq::<Seq<u8>>::empty(),
        }
    }
}

/// Extracts, in message order, the resource id of the chosen variant of
/// every message that carries a photo.
pub fn collect_photo_refs(msgs: &Vec<ChatMessage>) -> (r: Vec<Vec<u8>>)
    ensures
        r@.map_values(|v: Vec<u8>| v@) == batch_refs(msgs@.map_values(|m: ChatMessage| m@)),
{
    let ghost ms = msgs@.map_values(|m: ChatMessage| m@);
    let mut out: Vec<Vec<u8>> = Vec::new();
    let mut i: usize = 0;
    while i < msgs.len()
        invariant
            0 <= i <= msgs.len(),
            ms == msgs@.map_values(|m: ChatMessage| m@),
            ms.len() == msgs.len(),
            out@.map_values(|v: Vec<u8>| v@) == batch_refs(ms.take(i as int)),
        decreases msgs.len() - i,
    {
        proof {
            assert(ms.take(i + 1).drop_last() =~= ms.take(i as int));
            assert(ms.take(i + 1).last() == ms[i as int]);
        }
        match best_photo_index(&msgs[i].photos) {
            Some(b) => {
                proof {
                    assert(ms[i as int] == msgs@[i as int]@);
                    assert(ms[i as int].photos.len() == msgs@[i as int].photos@.len());
                    lemma_best_of_first_max(ms[i as int].photos);
                }
                let mut id: Vec<u8> = Vec::new();
                let fid = &msgs[i].photos[b].file_id;
                let mut k: usize = 0;
                while k < fid.len()
                    invariant
                        0 <= k <= fid.len(),
                        id@ == fid@.take(k as int),
                    decreases fid.len() - k,
                {
                    id.push(fid[k]);
                    proof {
                        assert(fid@.take(k + 1) =~= fid@.take(k as int).push(fid@[k as int]));
                    }
                    k = k + 1;
                }
                proof {
                    assert(fid@.take(fid@.len() as int) =~= fid@);
                }
                out.push(id);
                proof {
                    assert(out@.map_values(|v: Vec<u8>| v@) =~= batch_refs(ms.take(i + 1)));
                }
            },
            None => {
                proof {
                    assert(out@.map_values(|v: Vec<u8>| v@) =~= batch_refs(ms.take(i + 1)));
                }
            },
        }
        i = i + 1;
    }
    proof {
        assert(ms.take(msgs.len() as int) =~= ms);
    }
    out
}

} // verus!
