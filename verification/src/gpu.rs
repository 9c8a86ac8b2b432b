//! VideoCore mailbox: property-tag messages and frame-buffer allocation.
//!
//! A [`Mailbox`] holds the message buffer (size word, code word, 256 data
//! words).  A request is prepared here, copied to the physical buffer,
//! exchanged over the property channel ([`Mailbox::send`],
//! [`Mailbox::receive`], [`Mailbox::is_reply`]), copied back with
//! [`Mailbox::load_response`], and decoded here.
use crate::mmio::{load, rd, store, until_clear, wait_clear, wr, Block, RegOp};
use vstd::prelude::*;

verus! {

/// Read register.
pub const MB_READ: usize = 0x00;
/// Status register.
pub const MB_STATUS: usize = 0x18;
/// Write register.
pub const MB_WRITE: usize = 0x20;
/// Status: the write FIFO is full.
pub const STATUS_FULL: u32 = 0x8000_0000;
/// Status: the read FIFO is empty.
pub const STATUS_EMPTY: u32 = 0x4000_0000;
/// Property-tag channel.
pub const CH_PROP: u32 = 8;
/// Data words in the message buffer.
pub const MSG_WORDS: usize = 256;
/// Response code of a successful request.
pub const RESPONSE_OK: u32 = 0x8000_0000;
/// Tag: get firmware revision.
pub const TAG_FIRMWARE_REV: u32 = 0x0000_0001;
/// Alignment asked of an allocated frame buffer, in bytes.
pub const FB_ALIGNMENT: u32 = 4096;
/// Tag: allocate buffer (answers base address and size).
pub const TAG_ALLOCATE: u32 = 0x0004_0001;
/// Tag: get pitch.
pub const TAG_PITCH: u32 = 0x0004_0008;
/// Tag: set physical size.
pub const TAG_PHYS_SIZE: u32 = 0x0004_8003;
/// Tag: set virtual size.
pub const TAG_VIRT_SIZE: u32 = 0x0004_8004;
/// Tag: set depth.
pub const TAG_DEPTH: u32 = 0x0004_8005;

/// A frame buffer handed out by the firmware.
#[derive(Clone, Copy, Debug, PartialEq, Eq, Structural)]
pub struct FrameBuffer {
    pub addr: u32,
    pub size: u32,
    pub pitch: u32,
    pub w: u32,
    pub h: u32,
    pub depth: u32,
}

/// The message buffer of the property channel.
pub struct Mailbox {
    size: u32,
    code: u32,
    data: [u32; 256],
}

/// The mailbox word that posts the buffer at `buf_addr` on `chan`.
pub open spec fn request_word_of(buf_addr: u32, chan: u32) -> u32 {
    (buf_addr & !0xFu32) | chan
}

/// Whether `resp` answers the buffer at `buf_addr` on `chan`.
pub open spec fn answers(resp: u32, chan: u32, buf_addr: u32) -> bool {
    (resp & 0xF) == chan && (resp & !0xFu32) == buf_addr
}

/// The tag list of a frame-buffer request: set the physical and virtual
/// size and the depth, allocate the buffer, get the pitch.  Each tag has an
/// 8-byte value buffer.
pub open spec fn fb_request_words(w: u32, h: u32, depth: u32) -> Seq<u32> {
    seq![
        TAG_PHYS_SIZE, 8, 8, w, h,
        TAG_VIRT_SIZE, 8, 8, w, h,
        TAG_DEPTH, 8, 8, depth, 0,
        TAG_ALLOCATE, 8, 8, FB_ALIGNMENT, 0,
        TAG_PITCH, 8, 8, 0, 0,
        0,
    ]
}

/// The tag list of a firmware-revision request: the tag, its 4-byte value
/// buffer, the request code, the value word, the end tag.
pub open spec fn firmware_request_words() -> Seq<u32> {
    seq![TAG_FIRMWARE_REV, 4, 0, 0, 0]
}

/// The size word of a message whose tag list has `words` words: the tag
/// list's length in bytes.
pub open spec fn message_bytes(words: int) -> int {
    words * 4
}

/// Measure for walking a tag list from `off`.
pub open spec fn walk_measure(data: Seq<u32>, off: int) -> int {
    if 0 <= off < data.len() {
        data.len() - off
    } else {
        0
    }
}

/// The tag list from `off` ends with a zero tag inside the buffer, and every
/// word that decoding reads lies inside it.
pub open spec fn tags_fit(data: Seq<u32>, off: int) -> bool
    decreases walk_measure(data, off),
{
    if !(0 <= off < data.len()) {
        false
    } else if data[off] == 0 {
        true
    } else {
        &&& off + 1 < data.len()
        &&& (data[off] == TAG_ALLOCATE ==> off + 4 < data.len())
        &&& (data[off] == TAG_PITCH ==> off + 3 < data.len())
        &&& tags_fit(data, off + data[off + 1] / 4 + 3)
    }
}

/// Base address, size and pitch found in the tag list from `off`, starting
/// from `acc`; later tags override earlier ones.
pub open spec fn scan_fb(data: Seq<u32>, off: int, acc: (u32, u32, u32)) -> (u32, u32, u32)
    decreases walk_measure(data, off),
{
    if !(0 <= off < data.len()) || data[off] == 0 {
        acc
    } else {
        let a1 = if data[off] == TAG_ALLOCATE {
            (data[off + 3], data[off + 4], acc.2)
        } else {
            acc
        };
        let a2 = if data[off] == TAG_PITCH {
            (a1.0, a1.1, data[off + 3])
        } else {
            a1
        };
        scan_fb(data, off + data[off + 1] / 4 + 3, a2)
    }
}

/// A tag that is neither the end tag, allocate nor pitch contributes
/// nothing: the walk steps over it (by its value-buffer size) to the next tag.
pub proof fn lemma_scan_skips_other_tags(data: Seq<u32>, off: int, acc: (u32, u32, u32))
    requires
        0 <= off < data.len(),
        data[off] != 0,
        data[off] != TAG_ALLOCATE,
        data[off] != TAG_PITCH,
    ensures
        scan_fb(data, off, acc) == scan_fb(data, off + data[off + 1] / 4 + 3, acc),
{
}

/// An answer laid out as the frame-buffer request (the same tag ids and
/// value-buffer sizes, whatever the value words hold) fits, and decodes to
/// the allocate tag's two value words (base address, size) and the pitch
/// tag's first value word: the size and depth tags before them are stepped
/// over.
pub proof fn lemma_fb_answer_decodes(data: Seq<u32>, w: u32, h: u32, depth: u32)
    requires
        data.len() >= 26,
        forall|i: int|
            #![trigger data[i]]
            (i == 0 || i == 1 || i == 5 || i == 6 || i == 10 || i == 11 || i == 15 || i == 16 || i == 20
                || i == 21 || i == 25) ==> data[i] == fb_request_words(w, h, depth)[i],
    ensures
        tags_fit(data, 0),
        scan_fb(data, 0, (0u32, 0u32, 0u32)) == (data[18], data[19], data[23]),
{
    assert(data[0] == TAG_PHYS_SIZE && data[1] == 8);
    assert(data[5] == TAG_VIRT_SIZE && data[6] == 8);
    assert(data[10] == TAG_DEPTH && data[11] == 8);
    assert(data[15] == TAG_ALLOCATE && data[16] == 8);
    assert(data[20] == TAG_PITCH && data[21] == 8);
    assert(data[25] == 0);
    assert(tags_fit(data, 25));
    assert(tags_fit(data, 20));
    assert(tags_fit(data, 15));
    assert(tags_fit(data, 10));
    assert(tags_fit(data, 5));
    assert(tags_fit(data, 0));
    let z = (0u32, 0u32, 0u32);
    let a = (data[18], data[19], 0u32);
    let b = (data[18], data[19], data[23]);
    assert(scan_fb(data, 25, b) == b);
    assert(scan_fb(data, 20, a) == scan_fb(data, 25, b));
    assert(scan_fb(data, 15, z) == scan_fb(data, 20, a));
    assert(scan_fb(data, 10, z) == scan_fb(data, 15, z));
    assert(scan_fb(data, 5, z) == scan_fb(data, 10, z));
    assert(scan_fb(data, 0, z) == scan_fb(data, 5, z));
}

impl Mailbox {
    pub closed spec fn msg_size(&self) -> u32 {
        self.size
    }

    pub closed spec fn msg_code(&self) -> u32 {
        self.code
    }

    pub closed spec fn words(&self) -> Seq<u32> {
        self.data@
    }

    /// Every message buffer holds `MSG_WORDS` data words.
    pub proof fn lemma_words_len(&self)
        ensures
            self.words().len() == MSG_WORDS,
    {
    }

    /// An empty message buffer.
    pub fn new() -> (m: Self)
        ensures
            m.msg_size() == 0,
            m.msg_code() == 0,
            m.words() == Seq::new(MSG_WORDS as nat, |i: int| 0u32),
    {
        let data = [0u32; 256];
        assert(data@ =~= Seq::new(MSG_WORDS as nat, |i: int| 0u32));
        Mailbox { size: 0, code: 0, data }
    }

    /// The size word.
    pub fn size(&self) -> (s: u32)
        ensures
            s == self.msg_size(),
    {
        self.size
    }

    /// The code word.
    pub fn code(&self) -> (c: u32)
        ensures
            c == self.msg_code(),
    {
        self.code
    }

    /// The data words.
    pub fn data(&self) -> (d: &[u32])
        ensures
            d@ == self.words(),
    {
        self.data.as_slice()
    }

    /// Replace the buffer with the firmware's answer.
    pub fn load_response(&mut self, code: u32, data: &[u32])
        requires
            data@.len() == MSG_WORDS,
        ensures
            final(self).msg_size() == old(self).msg_size(),
            final(self).msg_code() == code,
            final(self).words() == data@,
    {
        let mut i: usize = 0;
        while i < MSG_WORDS
            invariant
                i <= MSG_WORDS,
                data@.len() == MSG_WORDS,
                self.size == old(self).size,
                forall|k: int| 0 <= k < i ==> self.data@[k] == data@[k],
            decreases MSG_WORDS - i,
        {
            self.data[i] = data[i];
            i = i + 1;
        }
        assert(self.data@ =~= data@);
        self.code = code;
    }

    /// The word to post in the write register for the buffer at `buf_addr`
    /// on `chan`.
    pub fn request_word(buf_addr: u32, chan: u32) -> (w: u32)
        ensures
            w == request_word_of(buf_addr, chan),
    {
        (buf_addr & !0xFu32) | chan
    }

    /// Wait for room in the write FIFO, then post the buffer at `buf_addr`
    /// on `chan`.
    pub fn send(buf_addr: u32, chan: u32) -> (ops: Vec<RegOp>)
        ensures
            ops@ == seq![
                wait_clear(Block::Mailbox, MB_STATUS, STATUS_FULL),
                wr(Block::Mailbox, MB_WRITE, request_word_of(buf_addr, chan)),
            ],
    {
        vec![
            until_clear(Block::Mailbox, MB_STATUS, STATUS_FULL),
            store(Block::Mailbox, MB_WRITE, Self::request_word(buf_addr, chan)),
        ]
    }

    /// Wait for a message in the read FIFO and read it; repeat until
    /// [`Mailbox::is_reply`] accepts the word read.
    pub fn receive() -> (ops: Vec<RegOp>)
        ensures
            ops@ == seq![wait_clear(Block::Mailbox, MB_STATUS, STATUS_EMPTY), rd(Block::Mailbox, MB_READ)],
    {
        vec![until_clear(Block::Mailbox, MB_STATUS, STATUS_EMPTY), load(Block::Mailbox, MB_READ)]
    }

    /// Whether the word `resp` read from the mailbox answers the buffer at
    /// `buf_addr` on `chan`.
    pub fn is_reply(resp: u32, chan: u32, buf_addr: u32) -> (b: bool)
        ensures
            b == answers(resp, chan, buf_addr),
    {
        (resp & 0xF) == chan && (resp & !0xFu32) == buf_addr
    }

    /// Whether the firmware accepted the request in the buffer.
    pub fn call_succeeded(&self) -> (ok: bool)
        ensures
            ok == (self.msg_code() == RESPONSE_OK),
    {
        self.code == RESPONSE_OK
    }

    /// Prepare a firmware-revision request.
    pub fn firmware_rev_request(&mut self)
        ensures
            final(self).msg_size() == message_bytes(5),
            final(self).msg_code() == 0,
            final(self).words() == firmware_request_words() + old(self).words().subrange(5, MSG_WORDS as int),
    {
        self.data[0] = TAG_FIRMWARE_REV;
        self.data[1] = 4;
        self.data[2] = 0;
        self.data[3] = 0;
        self.data[4] = 0;
        self.size = 5 * 4;
        self.code = 0;
        assert(self.data@ =~= firmware_request_words() + old(self).words().subrange(5, MSG_WORDS as int));
    }

    /// The firmware revision in an answered request (the tag's value word),
    /// if it succeeded.
    pub fn firmware_rev(&self) -> (r: Option<u32>)
        ensures
            r == if self.msg_code() == RESPONSE_OK {
                Some(self.words()[3])
            } else {
                None
            },
    {
        if self.call_succeeded() {
            Some(self.data[3])
        } else {
            None
        }
    }

    /// Prepare a request for a `w` x `h` frame buffer of `depth` bits per
    /// pixel, asking for its base address, size and pitch.
    pub fn alloc_fb_request(&mut self, w: u32, h: u32, depth: u32)
        ensures
            final(self).msg_size() == message_bytes(26),
            final(self).msg_code() == 0,
            final(self).words() == fb_request_words(w, h, depth) + old(self).words().subrange(26, MSG_WORDS as int),
    {
        let mut idx: usize = 0;
        self.put_tag(idx, TAG_PHYS_SIZE, w, h);
        idx = idx + 5;
        self.put_tag(idx, TAG_VIRT_SIZE, w, h);
        idx = idx + 5;
        self.put_tag(idx, TAG_DEPTH, depth, 0);
        idx = idx + 5;
        self.put_tag(idx, TAG_ALLOCATE, FB_ALIGNMENT, 0);
        idx = idx + 5;
        self.put_tag(idx, TAG_PITCH, 0, 0);
        idx = idx + 5;
        self.data[idx] = 0;
        self.size = (idx + 1) as u32 * 4;
        self.code = 0;
        assert(self.data@ =~= fb_request_words(w, h, depth) + old(self).words().subrange(26, MSG_WORDS as int));
    }

    fn put_tag(&mut self, idx: usize, id: u32, a: u32, b: u32)
        requires
            idx + 5 <= MSG_WORDS,
        ensures
            final(self).msg_size() == old(self).msg_size(),
            final(self).msg_code() == old(self).msg_code(),
            final(self).words() == old(self).words().update(idx as int, id).update(idx + 1, 8).update(
                idx + 2,
                8,
            ).update(idx + 3, a).update(idx + 4, b),
    {
        self.data[idx] = id;
        self.data[idx + 1] = 8;
        self.data[idx + 2] = 8;
        self.data[idx + 3] = a;
        self.data[idx + 4] = b;
    }

    /// Whether the answer's tag list can be decoded without reading outside
    /// the buffer.
    pub fn fb_response_fits(&self) -> (ok: bool)
        ensures
            ok == tags_fit(self.words(), 0),
    {
        let mut off: usize = 0;
        while off < self.data.len()
            invariant
                tags_fit(self.words(), off as int) == tags_fit(self.words(), 0),
            decreases self.words().len() - off,
        {
            let tag = self.data[off];
            if tag == 0 {
                return true;
            }
            if off + 1 >= self.data.len() {
                return false;
            }
            if tag == TAG_ALLOCATE && off + 4 >= self.data.len() {
                return false;
            }
            if tag == TAG_PITCH && off + 3 >= self.data.len() {
                return false;
            }
            let step = (self.data[off + 1] / 4 + 3) as usize;
            if step >= self.data.len() - off {
                assert(!tags_fit(self.words(), off + step));
                return false;
            }
            off = off + step;
        }
        false
    }

    /// The frame buffer described by an answered request for `w` x `h` at
    /// `depth`, if it succeeded: the base address and size of the last
    /// allocate tag and the pitch of the last pitch tag (0 when absent).
    pub fn alloc_fb(&self, w: u32, h: u32, depth: u32) -> (r: Option<FrameBuffer>)
        requires
            self.msg_code() == RESPONSE_OK ==> tags_fit(self.words(), 0),
        ensures
            r == if self.msg_code() == RESPONSE_OK {
                let s = scan_fb(self.words(), 0, (0u32, 0u32, 0u32));
                Some(FrameBuffer { addr: s.0, size: s.1, pitch: s.2, w, h, depth })
            } else {
                None
            },
    {
        if !self.call_succeeded() {
            return None;
        }
        let mut addr: u32 = 0;
        let mut size: u32 = 0;
        let mut pitch: u32 = 0;
        let mut off: usize = 0;
        while self.data[off] != 0
            invariant
                tags_fit(self.words(), off as int),
                scan_fb(self.words(), off as int, (addr, size, pitch)) == scan_fb(self.words(), 0, (0u32, 0u32, 0u32)),
            decreases self.words().len() - off,
        {
            let tag = self.data[off];
            if tag == TAG_ALLOCATE {
                addr = self.data[off + 3];
                size = self.data[off + 4];
            }
            if tag == TAG_PITCH {
                pitch = self.data[off + 3];
            }
            off = off + (self.data[off + 1] / 4 + 3) as usize;
            proof {
                lemma_fit_in_range(self.words(), off as int);
            }
        }
        Some(FrameBuffer { addr, size, pitch, w, h, depth })
    }
}

proof fn lemma_fit_in_range(data: Seq<u32>, off: int)
    requires
        tags_fit(data, off),
    ensures
        0 <= off < data.len(),
{
}

/// The word posted for a 16-byte-aligned buffer on a channel below 16 is
/// recognised as the answer for that buffer and channel.
pub proof fn lemma_request_answers(buf_addr: u32, chan: u32)
    requires
        buf_addr & 0xF == 0,
        chan < 16,
    ensures
        answers(request_word_of(buf_addr, chan), chan, buf_addr),
{
    assert((((buf_addr & !0xFu32) | chan) & 0xFu32) == chan && (((buf_addr & !0xFu32) | chan) & !0xFu32)
        == buf_addr) by (bit_vector)
        requires
            buf_addr & 0xFu32 == 0,
            chan < 16,
    ;
}

} // verus!
