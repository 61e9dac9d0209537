use vstd::prelude::*;

verus! {

/// Number of process slots the board reserves.
pub const NUM_PROCS: usize = 2;

/// Bytes of RAM reserved for each process slot.
pub const APP_MEMORY_SIZE: usize = 8192;

/// Size in bytes of a header word (a `usize` on the Cortex-M4).
pub const WORD_BYTES: usize = 4;

/// The little-endian 32-bit word stored at `offset` of the application flash.
pub open spec fn word_at(flash: Seq<u8>, offset: int) -> nat {
    (flash[offset] as nat) + 256 * (flash[offset + 1] as nat) + 65536 * (flash[offset + 2] as nat)
        + 16777216 * (flash[offset + 3] as nat)
}

/// A header word can be read at `offset`.
pub open spec fn readable(flash: Seq<u8>, offset: int) -> bool {
    0 <= offset && offset + 4 <= flash.len()
}

/// A header word is stored least significant byte first: its four bytes, from
/// the lowest address up, are its value's bytes from the least significant up.
/// The board has two process slots of 8 KiB each.
pub proof fn lemma_word_little_endian(flash: Seq<u8>, offset: int)
    requires
        readable(flash, offset),
    ensures
        word_at(flash, offset) % 256 == flash[offset],
        (word_at(flash, offset) / 256) % 256 == flash[offset + 1],
        (word_at(flash, offset) / 65536) % 256 == flash[offset + 2],
        word_at(flash, offset) / 16777216 == flash[offset + 3],
        NUM_PROCS == 2,
        APP_MEMORY_SIZE == 8192,
{
    let b0 = flash[offset] as int;
    let b1 = flash[offset + 1] as int;
    let b2 = flash[offset + 2] as int;
    let b3 = flash[offset + 3] as int;
    assert(0 <= b0 < 256 && 0 <= b1 < 256 && 0 <= b2 < 256 && 0 <= b3 < 256);
    let w = b0 + 256 * b1 + 65536 * b2 + 16777216 * b3;
    assert(w % 256 == b0 && (w / 256) % 256 == b1 && (w / 65536) % 256 == b2 && w / 16777216 == b3)
        by (nonlinear_arith)
        requires
            0 <= b0 < 256,
            0 <= b1 < 256,
            0 <= b2 < 256,
            0 <= b3 < 256,
            w == b0 + 256 * b1 + 65536 * b2 + 16777216 * b3,
    ;
}

/// Reads the header word at `offset`.
pub fn read_word(flash: &[u8], offset: usize) -> (w: u32)
    requires
        readable(flash@, offset as int),
    ensures
        w as nat == word_at(flash@, offset as int),
{
    let b0 = flash[offset] as u32;
    let b1 = flash[offset + 1] as u32;
    let b2 = flash[offset + 2] as u32;
    let b3 = flash[offset + 3] as u32;
    b0 + 256 * b1 + 65536 * b2 + 16777216 * b3
}


/// Where a process image starts in flash, how large it is, and which memory slot it gets.
#[derive(Clone, Copy, Debug, PartialEq, Eq)]
pub struct ProcessImage {
    /// Index of the process slot (and of its block of RAM).
    pub slot: usize,
    /// Byte offset of the image's header from the start of the application flash.
    pub offset: usize,
    /// Total size of the image, as its header states.
    pub total_size: usize,
}

/// Outcome of walking the chain of process headers in flash.
#[derive(Clone, Copy, Debug, PartialEq, Eq)]
pub enum TableCheck {
    /// Every header lies in flash and the chain ends with a zero-size header
    /// within the available slots.
    Fits,
    /// A nonzero header follows the last available slot.
    TooManyProcesses,
    /// A header that must be read lies (partly) outside the flash region.
    OutOfFlash,
}

/// Walks the headers starting at `start`, with `remaining` slots still free.
pub open spec fn table_check(flash: Seq<u8>, start: int, remaining: nat) -> TableCheck
    decreases remaining,
{
    if !readable(flash, start) {
        TableCheck::OutOfFlash
    } else if word_at(flash, start) == 0 {
        TableCheck::Fits
    } else if remaining == 0 {
        TableCheck::TooManyProcesses
    } else {
        table_check(flash, start + word_at(flash, start), (remaining - 1) as nat)
    }
}

/// The images found from `start` on, the first one getting slot `slot`.
pub open spec fn image_list(flash: Seq<u8>, start: int, slot: nat, remaining: nat) -> Seq<
    ProcessImage,
>
    decreases remaining,
{
    if remaining == 0 || !readable(flash, start) || word_at(flash, start) == 0 {
        Seq::empty()
    } else {
        seq![
            ProcessImage {
                slot: slot as usize,
                offset: start as usize,
                total_size: word_at(flash, start) as usize,
            },
        ] + image_list(flash, start + word_at(flash, start), slot + 1, (remaining - 1) as nat)
    }
}

/// The images of the application flash, as the board loads them.
pub open spec fn flash_images(flash: Seq<u8>) -> Seq<ProcessImage> {
    image_list(flash, 0, 0, NUM_PROCS as nat)
}

/// Checks the chain of process headers of the application flash.
pub fn check_process_table(flash: &[u8]) -> (r: TableCheck)
    ensures
        r == table_check(flash@, 0, NUM_PROCS as nat),
{
    let mut offset: usize = 0;
    let mut i: usize = 0;
    loop
        invariant
            i <= NUM_PROCS,
            table_check(flash@, 0, NUM_PROCS as nat) == table_check(
                flash@,
                offset as int,
                (NUM_PROCS - i) as nat,
            ),
        decreases NUM_PROCS - i,
    {
        if offset > flash.len() || flash.len() - offset < WORD_BYTES {
            return TableCheck::OutOfFlash;
        }
        let total_size = read_word(flash, offset);
        if total_size == 0 {
            return TableCheck::Fits;
        }
        if i == NUM_PROCS {
            return TableCheck::TooManyProcesses;
        }
        if total_size as usize > flash.len() - offset {
            assert(table_check(flash@, offset + total_size, (NUM_PROCS - i - 1) as nat)
                == TableCheck::OutOfFlash);
            return TableCheck::OutOfFlash;
        }
        offset = offset + total_size as usize;
        i = i + 1;
    }
}

/// What each process slot receives: the slot's image, or nothing.
pub open spec fn loaded_slots(flash: Seq<u8>) -> Seq<Option<ProcessImage>> {
    Seq::new(
        NUM_PROCS as nat,
        |k: int|
            if k < flash_images(flash).len() {
                Some(flash_images(flash)[k])
            } else {
                None
            },
    )
}

/// Finds the process images in the application flash, one per slot.
///
/// Each image starts with a header word holding its total size; the next image
/// follows right after it, and a header of zero ends the list. At most
/// `NUM_PROCS` headers are read; whether more images follow is for
/// `check_process_table` to say. The walk also stops at a header that lies
/// outside `flash`.
pub fn load_processes(flash: &[u8]) -> (slots: [Option<ProcessImage>; NUM_PROCS])
    ensures
        slots@ == loaded_slots(flash@),
{
    let mut slots: [Option<ProcessImage>; NUM_PROCS] = [None, None];
    let mut offset: usize = 0;
    let mut i: usize = 0;
    let ghost images = flash_images(flash@);
    let flash_len = flash.len();
    while i < NUM_PROCS
        invariant_except_break
            images.subrange(i as int, images.len() as int) == image_list(
                flash@,
                offset as int,
                i as nat,
                (NUM_PROCS - i) as nat,
            ),
        invariant
            i <= NUM_PROCS,
            flash_len == flash@.len(),
            images == flash_images(flash@),
            i <= images.len(),
            forall|k: int|
                0 <= k < NUM_PROCS ==> #[trigger] slots@[k] == (if k < i {
                    Some(images[k])
                } else {
                    None
                }),
        ensures
            i == images.len(),
            forall|k: int|
                0 <= k < NUM_PROCS ==> #[trigger] slots@[k] == (if k < i {
                    Some(images[k])
                } else {
                    None
                }),
        decreases NUM_PROCS - i,
    {
        if offset > flash_len || flash_len - offset < WORD_BYTES {
            assert(images.len() == i);
            break;
        }
        let total_size = read_word(flash, offset);
        if total_size == 0 {
            assert(images.len() == i);
            break;
        }
        let image = ProcessImage { slot: i, offset, total_size: total_size as usize };
        let ghost rest = image_list(
            flash@,
            offset + total_size,
            (i + 1) as nat,
            (NUM_PROCS - i - 1) as nat,
        );
        assert(image_list(flash@, offset as int, i as nat, (NUM_PROCS - i) as nat) == seq![image]
            + rest);
        assert(images.subrange(i as int, images.len() as int).len() > 0);
        assert(images[i as int] == images.subrange(i as int, images.len() as int)[0]);
        assert(images.subrange(i + 1, images.len() as int) =~= images.subrange(
            i as int,
            images.len() as int,
        ).drop_first());
        slots[i] = Some(image);
        if total_size as usize > flash_len - offset {
            i = i + 1;
            assert(!readable(flash@, offset + total_size));
            assert(images.len() == i);
            break;
        }
        offset = offset + total_size as usize;
        i = i + 1;
    }
    assert(slots@ =~= loaded_slots(flash@));
    slots
}

/// Offset just past the last image of `images`, or `start` when there is none.
pub open spec fn images_end(images: Seq<ProcessImage>, start: int) -> int {
    if images.len() == 0 {
        start
    } else {
        images.last().offset + images.last().total_size
    }
}

/// The images found from `start` on lie back to back in flash, each under its
/// own nonzero header, in consecutive slots.
pub open spec fn back_to_back(
    flash: Seq<u8>,
    images: Seq<ProcessImage>,
    start: int,
    slot: nat,
) -> bool {
    &&& images.len() > 0 ==> images[0].offset == start
    &&& forall|k: int|
        0 <= k < images.len() ==> {
            &&& #[trigger] images[k].slot == slot + k
            &&& readable(flash, images[k].offset as int)
            &&& images[k].total_size == word_at(flash, images[k].offset as int)
            &&& images[k].total_size > 0
        }
    &&& forall|j: int, k: int|
        0 <= k && j == k + 1 && j < images.len() ==> #[trigger] images[j].offset
            == #[trigger] images[k].offset + images[k].total_size
}

/// The header right after the last image is a readable zero word.
pub open spec fn ends_at_zero_header(flash: Seq<u8>, images: Seq<ProcessImage>, start: int) -> bool {
    &&& readable(flash, images_end(images, start))
    &&& word_at(flash, images_end(images, start)) == 0
}

proof fn lemma_image_list_layout(flash: Seq<u8>, start: int, slot: nat, remaining: nat)
    requires
        flash.len() <= usize::MAX,
        slot + remaining <= usize::MAX,
    ensures
        image_list(flash, start, slot, remaining).len() <= remaining,
        back_to_back(flash, image_list(flash, start, slot, remaining), start, slot),
        table_check(flash, start, remaining) == TableCheck::Fits ==> ends_at_zero_header(
            flash,
            image_list(flash, start, slot, remaining),
            start,
        ),
        table_check(flash, start, remaining) == TableCheck::TooManyProcesses ==> image_list(
            flash,
            start,
            slot,
            remaining,
        ).len() == remaining,
    decreases remaining,
{
    let images = image_list(flash, start, slot, remaining);
    if remaining == 0 || !readable(flash, start) || word_at(flash, start) == 0 {
    } else {
        let w = word_at(flash, start);
        let rest = image_list(flash, start + w, slot + 1, (remaining - 1) as nat);
        lemma_image_list_layout(flash, start + w, slot + 1, (remaining - 1) as nat);
        let head = ProcessImage { slot: slot as usize, offset: start as usize, total_size: w as usize };
        assert(w < 0x1_0000_0000);
        assert(head.offset == start && head.total_size == w);
        assert(images == seq![head] + rest);
        assert(images[0] == head);
        if rest.len() > 0 {
            assert(images.last() == rest.last());
            assert(images_end(images, start) == images_end(rest, start + w));
        } else {
            assert(images_end(images, start) == start + w);
        }
        assert forall|k: int| 0 <= k < images.len() implies {
            &&& #[trigger] images[k].slot == slot + k
            &&& readable(flash, images[k].offset as int)
            &&& images[k].total_size == word_at(flash, images[k].offset as int)
            &&& images[k].total_size > 0
        } by {
            if k > 0 {
                assert(images[k] == rest[k - 1]);
            }
        }
        assert forall|j: int, k: int|
            0 <= k && j == k + 1 && j < images.len() implies #[trigger] images[j].offset
            == #[trigger] images[k].offset + images[k].total_size by {
            if k > 0 {
                assert(images[k] == rest[k - 1]);
                assert(images[j] == rest[j - 1]);
            } else {
                assert(images[1] == rest[0]);
                assert(rest[0].offset == start + w);
            }
        }
    }
}

/// Whatever the flash holds, the images found lie back to back from the start
/// of the flash, each under its own nonzero size header, in slots numbered
/// from zero, at most `NUM_PROCS` of them. When the header chain fits, the
/// zero header that ends the list follows right after the last image.
pub proof fn lemma_flash_layout(flash: Seq<u8>)
    requires
        flash.len() <= usize::MAX,
    ensures
        flash_images(flash).len() <= NUM_PROCS,
        back_to_back(flash, flash_images(flash), 0, 0),
        table_check(flash, 0, NUM_PROCS as nat) == TableCheck::Fits ==> ends_at_zero_header(
            flash,
            flash_images(flash),
            0,
        ),
{
    lemma_image_list_layout(flash, 0, 0, NUM_PROCS as nat);
}

/// When more images follow than there are slots, every slot still receives
/// the image found for it before the check refuses the rest.
pub proof fn lemma_too_many_fills_every_slot(flash: Seq<u8>)
    requires
        flash.len() <= usize::MAX,
        table_check(flash, 0, NUM_PROCS as nat) == TableCheck::TooManyProcesses,
    ensures
        flash_images(flash).len() == NUM_PROCS,
        forall|k: int| 0 <= k < NUM_PROCS ==> (#[trigger] loaded_slots(flash)[k]) is Some,
{
    lemma_image_list_layout(flash, 0, 0, NUM_PROCS as nat);
}

/// Two flashes agree on every header word that the walk from `start` reads,
/// with `remaining` slots free: on whether it can be read and on its value.
pub open spec fn same_headers(f1: Seq<u8>, f2: Seq<u8>, start: int, remaining: nat) -> bool
    decreases remaining,
{
    &&& readable(f1, start) == readable(f2, start)
    &&& readable(f1, start) ==> {
        &&& word_at(f1, start) == word_at(f2, start)
        &&& (word_at(f1, start) != 0 && remaining > 0) ==> same_headers(
            f1,
            f2,
            start + word_at(f1, start),
            (remaining - 1) as nat,
        )
    }
}

proof fn lemma_same_headers_from(f1: Seq<u8>, f2: Seq<u8>, start: int, slot: nat, remaining: nat)
    requires
        same_headers(f1, f2, start, remaining),
    ensures
        table_check(f1, start, remaining) == table_check(f2, start, remaining),
        image_list(f1, start, slot, remaining) == image_list(f2, start, slot, remaining),
    decreases remaining,
{
    if readable(f1, start) && word_at(f1, start) != 0 && remaining > 0 {
        lemma_same_headers_from(
            f1,
            f2,
            start + word_at(f1, start),
            slot + 1,
            (remaining - 1) as nat,
        );
    }
}

/// Only the header words the walk reads decide what is loaded and whether the
/// table fits: the bytes of the images themselves, and whatever follows the
/// zero header or the header after the last slot, change nothing.
pub proof fn lemma_only_headers_matter(f1: Seq<u8>, f2: Seq<u8>)
    requires
        same_headers(f1, f2, 0, NUM_PROCS as nat),
    ensures
        table_check(f1, 0, NUM_PROCS as nat) == table_check(f2, 0, NUM_PROCS as nat),
        flash_images(f1) == flash_images(f2),
        loaded_slots(f1) == loaded_slots(f2),
{
    lemma_same_headers_from(f1, f2, 0, 0, NUM_PROCS as nat);
}

/// Offset of the `k`-th header of the chain that starts at `start`: each
/// header is followed by the next one `size` bytes further on.
pub open spec fn header_at(flash: Seq<u8>, start: int, k: nat) -> int
    decreases k,
{
    if k == 0 {
        start
    } else {
        let prev = header_at(flash, start, (k - 1) as nat);
        prev + word_at(flash, prev)
    }
}

/// The first `m` headers of the chain from `start` can be read and are nonzero.
pub open spec fn chain_ok(flash: Seq<u8>, start: int, m: nat) -> bool {
    forall|k: nat|
        k < m ==> readable(flash, #[trigger] header_at(flash, start, k)) && word_at(
            flash,
            header_at(flash, start, k),
        ) != 0
}

proof fn lemma_header_shift(flash: Seq<u8>, start: int, k: nat)
    ensures
        header_at(flash, start, k + 1) == header_at(
            flash,
            start + word_at(flash, start),
            k,
        ),
    decreases k,
{
    let next = start + word_at(flash, start);
    if k > 0 {
        lemma_header_shift(flash, start, (k - 1) as nat);
        let prev = header_at(flash, start, k);
        assert(header_at(flash, start, k + 1) == prev + word_at(flash, prev));
        assert(header_at(flash, next, k) == header_at(flash, next, (k - 1) as nat) + word_at(
            flash,
            header_at(flash, next, (k - 1) as nat),
        ));
    } else {
        assert(header_at(flash, start, 1) == header_at(flash, start, 0) + word_at(
            flash,
            header_at(flash, start, 0),
        ));
    }
}

proof fn lemma_walk(flash: Seq<u8>, start: int, slot: nat, remaining: nat, m: nat)
    requires
        flash.len() <= usize::MAX,
        slot + remaining <= usize::MAX,
        m <= remaining,
        chain_ok(flash, start, m),
    ensures
        image_list(flash, start, slot, remaining).len() >= m,
        forall|k: int|
            0 <= k < m ==> {
                let img = #[trigger] image_list(flash, start, slot, remaining)[k];
                &&& img.slot == slot + k
                &&& img.offset == header_at(flash, start, k as nat)
                &&& img.total_size == word_at(flash, header_at(flash, start, k as nat))
            },
        (readable(flash, header_at(flash, start, m)) && word_at(flash, header_at(flash, start, m))
            == 0) ==> table_check(flash, start, remaining) == TableCheck::Fits && image_list(
            flash,
            start,
            slot,
            remaining,
        ).len() == m,
        !readable(flash, header_at(flash, start, m)) ==> table_check(flash, start, remaining)
            == TableCheck::OutOfFlash && image_list(flash, start, slot, remaining).len() == m,
        (m == remaining && readable(flash, header_at(flash, start, m)) && word_at(
            flash,
            header_at(flash, start, m),
        ) != 0) ==> table_check(flash, start, remaining) == TableCheck::TooManyProcesses,
        m == remaining ==> image_list(flash, start, slot, remaining).len() == m,
    decreases m,
{
    if m > 0 {
        assert(readable(flash, header_at(flash, start, 0)) && word_at(flash, header_at(flash, start, 0)) != 0);
        let w = word_at(flash, start);
        let next = start + w;
        assert forall|k: nat| k < (m - 1) as nat implies readable(flash, #[trigger] header_at(flash, next, k))
            && word_at(flash, header_at(flash, next, k)) != 0 by {
            lemma_header_shift(flash, start, k);
            assert(header_at(flash, start, k + 1) == header_at(flash, next, k));
        }
        lemma_walk(flash, next, slot + 1, (remaining - 1) as nat, (m - 1) as nat);
        lemma_header_shift(flash, start, (m - 1) as nat);
        let rest = image_list(flash, next, slot + 1, (remaining - 1) as nat);
        let head = ProcessImage { slot: slot as usize, offset: start as usize, total_size: w as usize };
        assert(w < 0x1_0000_0000);
        let images = image_list(flash, start, slot, remaining);
        assert(images == seq![head] + rest);
        assert forall|k: int| 0 <= k < m implies {
            let img = #[trigger] images[k];
            &&& img.slot == slot + k
            &&& img.offset == header_at(flash, start, k as nat)
            &&& img.total_size == word_at(flash, header_at(flash, start, k as nat))
        } by {
            if k > 0 {
                assert(images[k] == rest[k - 1]);
                lemma_header_shift(flash, start, (k - 1) as nat);
            }
        }
    }
}

/// How the header chain decides the check, stated over the chain itself:
/// when the first `m` headers (at most `NUM_PROCS`) can be read and are
/// nonzero, the check says `Fits` if the next header is a readable zero word,
/// `OutOfFlash` if the next header cannot be read, and `TooManyProcesses` if
/// all slots are used and the next header is nonzero. Every flash has exactly
/// one such first stopping point, so this fixes the result.
pub proof fn lemma_check_follows_chain(flash: Seq<u8>, m: nat)
    requires
        flash.len() <= usize::MAX,
        m <= NUM_PROCS,
        chain_ok(flash, 0, m),
    ensures
        (readable(flash, header_at(flash, 0, m)) && word_at(flash, header_at(flash, 0, m)) == 0)
            ==> table_check(flash, 0, NUM_PROCS as nat) == TableCheck::Fits,
        !readable(flash, header_at(flash, 0, m)) ==> table_check(flash, 0, NUM_PROCS as nat)
            == TableCheck::OutOfFlash,
        (m == NUM_PROCS && readable(flash, header_at(flash, 0, m)) && word_at(
            flash,
            header_at(flash, 0, m),
        ) != 0) ==> table_check(flash, 0, NUM_PROCS as nat) == TableCheck::TooManyProcesses,
{
    lemma_walk(flash, 0, 0, NUM_PROCS as nat, m);
}

/// Every nonzero header the walk reaches within the slots is loaded, whatever
/// its size: when the first `m` headers (at most `NUM_PROCS`) can be read and
/// are nonzero, slot `k < m` holds the image at the `k`-th header with the size
/// that header states; and when the chain stops there (the next header is zero
/// or cannot be read), the remaining slots stay empty.
pub proof fn lemma_slots_follow_chain(flash: Seq<u8>, m: nat)
    requires
        flash.len() <= usize::MAX,
        m <= NUM_PROCS,
        chain_ok(flash, 0, m),
    ensures
        forall|k: int|
            0 <= k < m ==> (#[trigger] loaded_slots(flash)[k] matches Some(img) && img.slot == k
                && img.offset == header_at(flash, 0, k as nat) && img.total_size == word_at(
                flash,
                header_at(flash, 0, k as nat),
            )),
        (!readable(flash, header_at(flash, 0, m)) || word_at(flash, header_at(flash, 0, m)) == 0)
            ==> forall|k: int| m <= k < NUM_PROCS ==> #[trigger] loaded_slots(flash)[k] is None,
{
    lemma_walk(flash, 0, 0, NUM_PROCS as nat, m);
    let images = flash_images(flash);
    assert forall|k: int| 0 <= k < m implies (#[trigger] loaded_slots(flash)[k] matches Some(img)
        && img.slot == k && img.offset == header_at(flash, 0, k as nat) && img.total_size
        == word_at(flash, header_at(flash, 0, k as nat))) by {
        assert(loaded_slots(flash)[k] == Some(images[k]));
    }
}

} // verus!
