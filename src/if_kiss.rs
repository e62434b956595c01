//! The KISS framing codec: byte stuffing that delimits packets on a byte
//! stream, and the streaming parser that recovers them.
use vstd::prelude::*;
use crate::crc32::{crc32c, crc_ok, crc_body, crc_trailer, with_crc, lemma_crc_append_verifies};
use crate::endian::{be_u32, read_be_u32};
use crate::id::{csp_id1_prepend, get_packet_id, id_bytes, id_from_bytes, lemma_id_round_trip};
use crate::types::{Error, Id, Packet};
use crate::utils::copy_range;

verus! {

/// Frame delimiter.
pub const FEND: u8 = 0xC0;

/// Escape marker.
pub const FESC: u8 = 0xDB;

/// Stands, after an escape marker, for a delimiter in the data.
pub const TFEND: u8 = 0xDC;

/// Stands, after an escape marker, for an escape marker in the data.
pub const TFESC: u8 = 0xDD;

/// The type byte sent right after the opening delimiter.
pub const TNC_DATA: u8 = 0x00;

/// The most bytes a frame may gather before the parser gives it up.
pub const KISS_MAX_RX_LENGTH: usize = 256;

/// The shortest frame body that can be a packet: a four-byte header, one
/// payload byte and a four-byte checksum.
pub const KISS_MIN_FRAME_LENGTH: usize = 9;

/// The state of the frame parser.
#[derive(Clone, Copy, Debug, PartialEq, Eq, Structural)]
pub enum CspKissMode {
    /// Outside any frame: waiting for a delimiter.
    KissModeNotStarted,
    /// Inside a frame.
    KissModeStarted,
    /// Inside a frame, right after an escape marker.
    KissModeEscaped,
    /// Dropping an oversized frame up to its closing delimiter.
    KissModeSkipFrame,
}

/// How one byte of data goes on the wire.
pub open spec fn kiss_escape_byte(b: u8) -> Seq<u8> {
    if b == FEND {
        seq![FESC, TFEND]
    } else if b == FESC {
        seq![FESC, TFESC]
    } else {
        seq![b]
    }
}

/// How a run of data bytes goes on the wire.
pub open spec fn kiss_escape(s: Seq<u8>) -> Seq<u8>
    decreases s.len(),
{
    if s.len() == 0 {
        Seq::empty()
    } else {
        kiss_escape(s.drop_last()) + kiss_escape_byte(s.last())
    }
}

/// The frame that carries `p`: a delimiter, the type byte, every byte of
/// `p` after the first (whose place the type byte takes), escaped, and a
/// closing delimiter.
pub open spec fn kiss_frame(p: Seq<u8>) -> Seq<u8> {
    seq![FEND, TNC_DATA] + kiss_escape(if p.len() == 0 {
        p
    } else {
        p.drop_first()
    }) + seq![FEND]
}

/// The frame that carries a packet: its header, its payload and the
/// payload's checksum.
pub open spec fn kiss_packet_frame(id: Id, data: Seq<u8>) -> Seq<u8> {
    kiss_frame(seq![TNC_DATA] + id_bytes(id) + with_crc(data))
}

/// What the frame parser holds between bytes.
pub ghost struct KissRxModel {
    pub mode: CspKissMode,
    /// The next data byte is the type byte, to be dropped.
    pub first: bool,
    /// The data bytes of the frame so far.
    pub buf: Seq<u8>,
    /// The most data bytes a frame may hold.
    pub max: nat,
}

/// Adds a data byte to the frame, or gives up the frame when it is full.
pub open spec fn kiss_rx_append(s: KissRxModel, b: u8) -> KissRxModel {
    if s.buf.len() < s.max {
        KissRxModel { mode: CspKissMode::KissModeStarted, buf: s.buf.push(b), ..s }
    } else {
        KissRxModel { mode: CspKissMode::KissModeSkipFrame, ..s }
    }
}

/// One byte through the parser: the next state, and the data of a frame
/// that this byte closed.
pub open spec fn kiss_rx_step(s: KissRxModel, b: u8) -> (KissRxModel, Option<Seq<u8>>) {
    match s.mode {
        CspKissMode::KissModeNotStarted => {
            if b == FEND {
                (
                    KissRxModel {
                        mode: CspKissMode::KissModeStarted,
                        first: true,
                        buf: Seq::empty(),
                        max: s.max,
                    },
                    None,
                )
            } else {
                (s, None)
            }
        },
        CspKissMode::KissModeStarted => {
            if b == FESC {
                (KissRxModel { mode: CspKissMode::KissModeEscaped, ..s }, None)
            } else if b == FEND {
                (
                    KissRxModel { mode: CspKissMode::KissModeNotStarted, buf: Seq::empty(), ..s },
                    Some(s.buf),
                )
            } else if s.first {
                (KissRxModel { first: false, ..s }, None)
            } else {
                (kiss_rx_append(s, b), None)
            }
        },
        CspKissMode::KissModeEscaped => {
            if b == TFESC {
                (kiss_rx_append(s, FESC), None)
            } else if b == TFEND {
                (kiss_rx_append(s, FEND), None)
            } else {
                (KissRxModel { mode: CspKissMode::KissModeStarted, ..s }, None)
            }
        },
        CspKissMode::KissModeSkipFrame => {
            if b == FEND {
                (KissRxModel { mode: CspKissMode::KissModeNotStarted, ..s }, None)
            } else {
                (s, None)
            }
        },
    }
}

/// The parser run over a byte stream: its final state and the data of
/// every frame closed on the way, in order.
pub open spec fn kiss_rx_run(s: KissRxModel, bytes: Seq<u8>) -> (KissRxModel, Seq<Seq<u8>>)
    decreases bytes.len(),
{
    if bytes.len() == 0 {
        (s, Seq::empty())
    } else {
        let (s1, out) = kiss_rx_step(s, bytes[0]);
        let (s2, outs) = kiss_rx_run(s1, bytes.drop_first());
        (
            s2,
            match out {
                Some(f) => seq![f] + outs,
                None => outs,
            },
        )
    }
}

/// The parser run over a byte stream up to the first frame it closes: the
/// state then, and that frame's data if one closed.
pub open spec fn kiss_rx_until(s: KissRxModel, bytes: Seq<u8>) -> (KissRxModel, Option<Seq<u8>>)
    decreases bytes.len(),
{
    if bytes.len() == 0 {
        (s, None)
    } else {
        let (s1, out) = kiss_rx_step(s, bytes[0]);
        if out is Some {
            (s1, out)
        } else {
            kiss_rx_until(s1, bytes.drop_first())
        }
    }
}

/// The packet a closed frame's data stands for: a framing error below the
/// shortest packet, a checksum error when the trailer does not match the
/// payload, else the header's identifier and the payload.
pub open spec fn kiss_frame_result(body: Seq<u8>) -> Result<(Id, Seq<u8>), Error> {
    if body.len() < KISS_MIN_FRAME_LENGTH {
        Err(Error::CspFramingError)
    } else if !crc_ok(body.subrange(4, body.len() as int)) {
        Err(Error::CspChecksumError)
    } else {
        Ok((id_from_bytes(body), crc_body(body.subrange(4, body.len() as int))))
    }
}

/// `r` is the packet, or the error, that `m` describes.
pub open spec fn packet_result_is(r: Result<Packet, Error>, m: Result<(Id, Seq<u8>), Error>) -> bool {
    match m {
        Ok((id, data)) => r is Ok && r->Ok_0.id == id && r->Ok_0.data@ == data,
        Err(e) => r == Err::<Packet, Error>(e),
    }
}

proof fn lemma_escape_push(s: Seq<u8>, b: u8)
    ensures
        kiss_escape(s.push(b)) == kiss_escape(s) + kiss_escape_byte(b),
{
    assert(s.push(b).drop_last() =~= s);
}

/// Frames the first `len` bytes of `data`: a delimiter, the type byte,
/// every byte after the first with delimiters and escape markers escaped,
/// and a closing delimiter.
pub fn kiss_process_tx(data: &[u8], len: usize) -> (r: Vec<u8>)
    requires
        len <= data@.len(),
    ensures
        r@ == kiss_frame(data@.subrange(0, len as int)),
{
    let mut res: Vec<u8> = Vec::new();
    res.push(FEND);
    res.push(TNC_DATA);
    if len == 0 {
        res.push(FEND);
        assert(res@ =~= kiss_frame(data@.subrange(0, 0)));
        return res;
    }
    let mut n: usize = 1;
    assert(data@.subrange(1, 1) =~= Seq::<u8>::empty());
    while n < len
        invariant
            len <= data@.len(),
            1 <= n,
            n <= len,
            res@ == seq![FEND, TNC_DATA] + kiss_escape(data@.subrange(1, n as int)),
        decreases len - n,
    {
        proof {
            lemma_escape_push(data@.subrange(1, n as int), data@[n as int]);
            assert(data@.subrange(1, n as int).push(data@[n as int]) =~= data@.subrange(
                1,
                n + 1,
            ));
        }
        if data[n] == FEND {
            res.push(FESC);
            res.push(TFEND);
        } else if data[n] == FESC {
            res.push(FESC);
            res.push(TFESC);
        } else {
            res.push(data[n]);
        }
        n = n + 1;
        assert(res@ =~= seq![FEND, TNC_DATA] + kiss_escape(data@.subrange(1, n as int)));
    }
    res.push(FEND);
    proof {
        let p = data@.subrange(0, len as int);
        assert(p.drop_first() =~= data@.subrange(1, len as int));
    }
    assert(res@ =~= kiss_frame(data@.subrange(0, len as int)));
    res
}

/// The receiving side of a KISS link: the frame parser's state.
pub struct KissIntfDataRx {
    pub rx_mode: CspKissMode,
    pub max_rx_length: usize,
    pub rx_first: bool,
    pub rx_buf: Vec<u8>,
}

impl View for KissIntfDataRx {
    type V = KissRxModel;

    open spec fn view(&self) -> KissRxModel {
        KissRxModel {
            mode: self.rx_mode,
            first: self.rx_first,
            buf: self.rx_buf@,
            max: self.max_rx_length as nat,
        }
    }
}

impl KissIntfDataRx {
    /// A parser waiting for a frame, taking frames of up to
    /// `KISS_MAX_RX_LENGTH` bytes.
    pub fn new() -> (r: Self)
        ensures
            r@ == (KissRxModel {
                mode: CspKissMode::KissModeNotStarted,
                first: true,
                buf: Seq::empty(),
                max: KISS_MAX_RX_LENGTH as nat,
            }),
    {
        Self {
            max_rx_length: KISS_MAX_RX_LENGTH,
            rx_first: true,
            rx_buf: Vec::new(),
            rx_mode: CspKissMode::KissModeNotStarted,
        }
    }

    fn rx_append(&mut self, b: u8)
        ensures
            final(self)@ == kiss_rx_append(old(self)@, b),
    {
        if self.rx_buf.len() < self.max_rx_length {
            self.rx_buf.push(b);
            self.rx_mode = CspKissMode::KissModeStarted;
        } else {
            self.rx_mode = CspKissMode::KissModeSkipFrame;
        }
    }

    /// Feeds one byte to the parser. When the byte closes a frame, returns
    /// the packet it carries or the reason it was dropped.
    pub fn kiss_rx_byte(&mut self, inputbyte: u8) -> (r: Option<Result<Packet, Error>>)
        ensures
            final(self)@ == kiss_rx_step(old(self)@, inputbyte).0,
            kiss_rx_step(old(self)@, inputbyte).1 is None ==> r is None,
            kiss_rx_step(old(self)@, inputbyte).1 is Some ==> r is Some && packet_result_is(
                r->Some_0,
                kiss_frame_result(kiss_rx_step(old(self)@, inputbyte).1->Some_0),
            ),
    {
        match self.rx_mode {
            CspKissMode::KissModeNotStarted => {
                if inputbyte == FEND {
                    self.rx_first = true;
                    self.rx_buf = Vec::new();
                    self.rx_mode = CspKissMode::KissModeStarted;
                }
                None
            },
            CspKissMode::KissModeStarted => {
                if inputbyte == FESC {
                    self.rx_mode = CspKissMode::KissModeEscaped;
                    None
                } else if inputbyte == FEND {
                    self.rx_mode = CspKissMode::KissModeNotStarted;
                    let mut body: Vec<u8> = Vec::new();
                    std::mem::swap(&mut body, &mut self.rx_buf);
                    Some(kiss_frame_decode(&body))
                } else if self.rx_first {
                    self.rx_first = false;
                    None
                } else {
                    self.rx_append(inputbyte);
                    None
                }
            },
            CspKissMode::KissModeEscaped => {
                if inputbyte == TFESC {
                    self.rx_append(FESC);
                } else if inputbyte == TFEND {
                    self.rx_append(FEND);
                } else {
                    self.rx_mode = CspKissMode::KissModeStarted;
                }
                None
            },
            CspKissMode::KissModeSkipFrame => {
                if inputbyte == FEND {
                    self.rx_mode = CspKissMode::KissModeNotStarted;
                }
                None
            },
        }
    }

    /// Feeds every byte of `bytes` to the parser and returns, in order, the
    /// packet or the reason for dropping it of each frame they close.
    pub fn kiss_rx_bytes(&mut self, bytes: &[u8]) -> (r: Vec<Result<Packet, Error>>)
        ensures
            final(self)@ == kiss_rx_run(old(self)@, bytes@).0,
            r@.len() == kiss_rx_run(old(self)@, bytes@).1.len(),
            forall|i: int|
                0 <= i < r@.len() ==> packet_result_is(
                    #[trigger] r@[i],
                    kiss_frame_result(kiss_rx_run(old(self)@, bytes@).1[i]),
                ),
    {
        let mut r: Vec<Result<Packet, Error>> = Vec::new();
        let mut n: usize = 0;
        assert(bytes@.subrange(0, 0) =~= Seq::<u8>::empty());
        while n < bytes.len()
            invariant
                n <= bytes@.len(),
                self@ == kiss_rx_run(old(self)@, bytes@.subrange(0, n as int)).0,
                r@.len() == kiss_rx_run(old(self)@, bytes@.subrange(0, n as int)).1.len(),
                forall|i: int|
                    0 <= i < r@.len() ==> packet_result_is(
                        #[trigger] r@[i],
                        kiss_frame_result(kiss_rx_run(old(self)@, bytes@.subrange(0, n as int)).1[i]),
                    ),
            decreases bytes@.len() - n,
        {
            let ghost prev = bytes@.subrange(0, n as int);
            let ghost mid = self@;
            let b = bytes[n];
            proof {
                assert(bytes@.subrange(0, n + 1) =~= prev + seq![b]);
                lemma_rx_run_append(old(self)@, prev, seq![b]);
                lemma_rx_run_one(mid, b);
            }
            let ghost r0 = r@;
            match self.kiss_rx_byte(b) {
                Some(res) => {
                    r.push(res);
                },
                None => {},
            }
            n = n + 1;
            proof {
                let outs = kiss_rx_run(old(self)@, bytes@.subrange(0, n as int)).1;
                assert forall|i: int| 0 <= i < r@.len() implies packet_result_is(
                    #[trigger] r@[i],
                    kiss_frame_result(outs[i]),
                ) by {
                    if i < r0.len() {
                        assert(r@[i] == r0[i]);
                    }
                }
            }
        }
        assert(bytes@.subrange(0, n as int) =~= bytes@);
        r
    }
}

/// The packet a closed frame carries, given the checksum computed over its
/// payload: a framing error when the frame is shorter than
/// `KISS_MIN_FRAME_LENGTH`, a checksum error when the trailer differs from
/// `calc_crc`, else the header's identifier with the payload between header
/// and trailer.
pub fn kiss_frame_check(body: &Vec<u8>, calc_crc: u32) -> (r: Result<Packet, Error>)
    ensures
        body@.len() < KISS_MIN_FRAME_LENGTH ==> r == Err::<Packet, Error>(Error::CspFramingError),
        body@.len() >= KISS_MIN_FRAME_LENGTH && calc_crc != be_u32(crc_trailer(body@)) ==> r
            == Err::<Packet, Error>(Error::CspChecksumError),
        body@.len() >= KISS_MIN_FRAME_LENGTH && calc_crc == be_u32(crc_trailer(body@)) ==> r is Ok
            && r->Ok_0.id == id_from_bytes(body@) && r->Ok_0.data@ == body@.subrange(
            4,
            body@.len() - 4,
        ),
{
    let n = body.len();
    if n < KISS_MIN_FRAME_LENGTH {
        return Err(Error::CspFramingError);
    }
    let trailer = [body[n - 4], body[n - 3], body[n - 2], body[n - 1]];
    let pkt_crc = read_be_u32(trailer.as_slice());
    assert(trailer@ =~= crc_trailer(body@));
    if pkt_crc != calc_crc {
        return Err(Error::CspChecksumError);
    }
    let id = get_packet_id(body[0], body[1], body[2], body[3]);
    assert(seq![body@[0], body@[1], body@[2], body@[3]] =~= body@.subrange(0, 4));
    let data = copy_range(body.as_slice(), 4, n - 4);
    Ok(Packet { id, data })
}

/// The packet a closed frame carries, or the reason it is dropped.
pub fn kiss_frame_decode(body: &Vec<u8>) -> (r: Result<Packet, Error>)
    ensures
        packet_result_is(r, kiss_frame_result(body@)),
{
    let n = body.len();
    if n < KISS_MIN_FRAME_LENGTH {
        return Err(Error::CspFramingError);
    }
    let payload = copy_range(body.as_slice(), 4, n - 4);
    let calc_crc = crc32c(payload.as_slice());
    let r = kiss_frame_check(body, calc_crc);
    proof {
        let rest = body@.subrange(4, n as int);
        assert(crc_body(rest) =~= payload@);
        assert(crc_trailer(rest) =~= crc_trailer(body@));
        assert(id_from_bytes(body@) == id_from_bytes(body@.subrange(0, 4)));
    }
    r
}

/// Feeds the first `len` bytes of `data` to the parser, up to the first
/// frame they close. Returns that frame's packet or the reason it was
/// dropped; when no frame closes, the bytes gathered so far of the frame in
/// progress, under the default identifier.
pub fn kiss_process_rx(data: Vec<u8>, len: usize, intf: &mut KissIntfDataRx) -> (r: Result<
    Packet,
    Error,
>)
    requires
        len <= data@.len(),
    ensures
        final(intf)@ == kiss_rx_until(old(intf)@, data@.subrange(0, len as int)).0,
        kiss_rx_until(old(intf)@, data@.subrange(0, len as int)).1 is Some ==> packet_result_is(
            r,
            kiss_frame_result(kiss_rx_until(old(intf)@, data@.subrange(0, len as int)).1->Some_0),
        ),
        kiss_rx_until(old(intf)@, data@.subrange(0, len as int)).1 is None ==> r is Ok
            && r->Ok_0.id == Id::spec_new() && r->Ok_0.data@ == final(intf)@.buf,
{
    let mut n: usize = 0;
    while n < len
        invariant
            n <= len <= data@.len(),
            kiss_rx_until(old(intf)@, data@.subrange(0, len as int)) == kiss_rx_until(
                intf@,
                data@.subrange(n as int, len as int),
            ),
        decreases len - n,
    {
        let ghost rest = data@.subrange(n as int, len as int);
        assert(rest[0] == data@[n as int]);
        assert(rest.drop_first() =~= data@.subrange(n + 1, len as int));
        let inputbyte = data[n];
        let ev = intf.kiss_rx_byte(inputbyte);
        n = n + 1;
        match ev {
            Some(res) => {
                return res;
            },
            None => {},
        }
    }
    assert(data@.subrange(n as int, len as int) =~= Seq::<u8>::empty());
    let gathered = copy_range(intf.rx_buf.as_slice(), 0, intf.rx_buf.len());
    assert(gathered@ =~= intf.rx_buf@);
    Ok(Packet { id: Id::new(), data: gathered })
}

/// Readies a packet for a KISS link and frames it: appends the payload's
/// checksum, puts the header in front, and frames the result behind the
/// type byte.
pub fn kiss_tx_frame(packet: &mut Packet) -> (r: Vec<u8>)
    ensures
        final(packet).id == old(packet).id,
        final(packet).data@ == id_bytes(old(packet).id) + with_crc(old(packet).data@),
        r@ == kiss_packet_frame(old(packet).id, old(packet).data@),
{
    packet.crc32_append();
    csp_id1_prepend(packet);
    let mut buf: Vec<u8> = Vec::new();
    buf.push(TNC_DATA);
    let mut i: usize = 0;
    while i < packet.data.len()
        invariant
            i <= packet.data@.len(),
            buf@ == seq![TNC_DATA] + packet.data@.subrange(0, i as int),
        decreases packet.data@.len() - i,
    {
        buf.push(packet.data[i]);
        i = i + 1;
        assert(buf@ =~= seq![TNC_DATA] + packet.data@.subrange(0, i as int));
    }
    assert(packet.data@.subrange(0, i as int) =~= packet.data@);
    let len = buf.len();
    let r = kiss_process_tx(buf.as_slice(), len);
    assert(buf@.subrange(0, len as int) =~= buf@);
    assert(seq![TNC_DATA] + id_bytes(old(packet).id) + with_crc(old(packet).data@) =~= buf@);
    r
}

/// Running the parser over two streams in turn is running it over the
/// first then the second.
pub proof fn lemma_rx_run_append(s: KissRxModel, a: Seq<u8>, b: Seq<u8>)
    ensures
        kiss_rx_run(s, a + b) == (
            kiss_rx_run(kiss_rx_run(s, a).0, b).0,
            kiss_rx_run(s, a).1 + kiss_rx_run(kiss_rx_run(s, a).0, b).1,
        ),
    decreases a.len(),
{
    if a.len() == 0 {
        assert(a + b =~= b);
        assert(kiss_rx_run(s, a).1 + kiss_rx_run(s, b).1 =~= kiss_rx_run(s, b).1);
    } else {
        assert((a + b)[0] == a[0]);
        assert((a + b).drop_first() =~= a.drop_first() + b);
        let s1 = kiss_rx_step(s, a[0]).0;
        lemma_rx_run_append(s1, a.drop_first(), b);
        let o = kiss_rx_step(s, a[0]).1;
        if o is Some {
            let x = seq![o->Some_0];
            let p = kiss_rx_run(s1, a.drop_first()).1;
            let q = kiss_rx_run(kiss_rx_run(s1, a.drop_first()).0, b).1;
            assert(x + (p + q) =~= (x + p) + q);
        }
    }
}

proof fn lemma_rx_run_two(s: KissRxModel, x: u8, y: u8)
    ensures
        kiss_rx_run(s, seq![x, y]) == (
            kiss_rx_run(kiss_rx_run(s, seq![x]).0, seq![y]).0,
            kiss_rx_run(s, seq![x]).1 + kiss_rx_run(kiss_rx_run(s, seq![x]).0, seq![y]).1,
        ),
{
    lemma_rx_run_append(s, seq![x], seq![y]);
    assert(seq![x] + seq![y] =~= seq![x, y]);
}

proof fn lemma_rx_run_one(s: KissRxModel, x: u8)
    ensures
        kiss_rx_run(s, seq![x]) == (
            kiss_rx_step(s, x).0,
            match kiss_rx_step(s, x).1 {
                Some(f) => seq![f],
                None => Seq::<Seq<u8>>::empty(),
            },
        ),
{
    assert(seq![x].drop_first() =~= Seq::<u8>::empty());
    assert(seq![x][0] == x);
    let s1 = kiss_rx_step(s, x).0;
    assert(kiss_rx_run(s1, Seq::<u8>::empty()) == (s1, Seq::<Seq<u8>>::empty()));
    let o = kiss_rx_step(s, x).1;
    if o is Some {
        assert(seq![o->Some_0] + Seq::<Seq<u8>>::empty() =~= seq![o->Some_0]);
    }
}

/// Inside a frame, past its type byte, the escaped form of data bytes that
/// fit adds exactly those bytes to the frame and closes no frame.
pub proof fn lemma_rx_run_escaped(s: KissRxModel, t: Seq<u8>)
    requires
        s.mode == CspKissMode::KissModeStarted,
        !s.first,
        s.buf.len() + t.len() <= s.max,
    ensures
        kiss_rx_run(s, kiss_escape(t)) == (KissRxModel { buf: s.buf + t, ..s }, Seq::<
            Seq<u8>,
        >::empty()),
    decreases t.len(),
{
    if t.len() == 0 {
        assert(s.buf + t =~= s.buf);
    } else {
        let t0 = t.drop_last();
        let x = t.last();
        lemma_rx_run_escaped(s, t0);
        let m = KissRxModel { buf: s.buf + t0, ..s };
        lemma_rx_run_append(s, kiss_escape(t0), kiss_escape_byte(x));
        assert(s.buf + t0.push(x) =~= s.buf + t);
        assert(t0.push(x) =~= t);
        if x == FEND {
            lemma_rx_run_two(m, FESC, TFEND);
            lemma_rx_run_one(m, FESC);
            lemma_rx_run_one(KissRxModel { mode: CspKissMode::KissModeEscaped, ..m }, TFEND);
            assert((s.buf + t0).push(FEND) =~= s.buf + t);
        } else if x == FESC {
            lemma_rx_run_two(m, FESC, TFESC);
            lemma_rx_run_one(m, FESC);
            lemma_rx_run_one(KissRxModel { mode: CspKissMode::KissModeEscaped, ..m }, TFESC);
            assert((s.buf + t0).push(FESC) =~= s.buf + t);
        } else {
            lemma_rx_run_one(m, x);
            assert((s.buf + t0).push(x) =~= s.buf + t);
        }
        assert(Seq::<Seq<u8>>::empty() + Seq::<Seq<u8>>::empty() =~= Seq::<Seq<u8>>::empty());
    }
}

/// Framing round trip: a parser outside any frame, fed the frame of bytes
/// `p` (at least one byte, and no more after the first than a frame may
/// hold), closes exactly one frame, whose data is `p` but its first byte,
/// and is outside any frame again.
pub proof fn lemma_kiss_frame_round_trip(s: KissRxModel, p: Seq<u8>)
    requires
        s.mode == CspKissMode::KissModeNotStarted,
        p.len() >= 1,
        p.len() - 1 <= s.max,
    ensures
        kiss_rx_run(s, kiss_frame(p)) == (
            KissRxModel {
                mode: CspKissMode::KissModeNotStarted,
                first: false,
                buf: Seq::empty(),
                max: s.max,
            },
            seq![p.drop_first()],
        ),
{
    let t = p.drop_first();
    let s1 = KissRxModel {
        mode: CspKissMode::KissModeStarted,
        first: true,
        buf: Seq::empty(),
        max: s.max,
    };
    let s2 = KissRxModel { first: false, ..s1 };
    lemma_rx_run_two(s, FEND, TNC_DATA);
    lemma_rx_run_one(s, FEND);
    lemma_rx_run_one(s1, TNC_DATA);
    lemma_rx_run_escaped(s2, t);
    let s3 = KissRxModel { buf: s2.buf + t, ..s2 };
    lemma_rx_run_one(s3, FEND);
    lemma_rx_run_append(s, seq![FEND, TNC_DATA], kiss_escape(t));
    lemma_rx_run_append(s, seq![FEND, TNC_DATA] + kiss_escape(t), seq![FEND]);
    assert(s2.buf + t =~= t);
    let e = Seq::<Seq<u8>>::empty();
    assert(e + e + seq![t] =~= seq![t]);
}

/// A frame too short to hold a header, a payload byte and a checksum is
/// dropped as a framing error; the parser is outside any frame after it
/// and takes the next well-formed frame.
pub proof fn lemma_short_frame_rejected(s: KissRxModel, p: Seq<u8>, q: Seq<u8>)
    requires
        s.mode == CspKissMode::KissModeNotStarted,
        p.len() >= 1,
        p.len() - 1 < KISS_MIN_FRAME_LENGTH,
        p.len() - 1 <= s.max,
        q.len() >= 1,
        q.len() - 1 <= s.max,
    ensures
        kiss_rx_run(s, kiss_frame(p)).0.mode == CspKissMode::KissModeNotStarted,
        kiss_rx_run(s, kiss_frame(p) + kiss_frame(q)).1 == seq![p.drop_first(), q.drop_first()],
        kiss_frame_result(p.drop_first()) == Err::<(Id, Seq<u8>), Error>(Error::CspFramingError),
{
    lemma_kiss_frame_round_trip(s, p);
    let s1 = kiss_rx_run(s, kiss_frame(p)).0;
    lemma_kiss_frame_round_trip(s1, q);
    lemma_rx_run_append(s, kiss_frame(p), kiss_frame(q));
    assert(seq![p.drop_first()] + seq![q.drop_first()] =~= seq![p.drop_first(), q.drop_first()]);
}

/// Packet round trip: the frame a KISS link sends for a packet with a
/// well-formed identifier and a payload of at least one byte that fits a
/// frame, fed to a parser outside any frame, closes exactly one frame, and
/// that frame decodes to the same identifier and payload.
pub proof fn lemma_kiss_packet_round_trip(s: KissRxModel, id: Id, data: Seq<u8>)
    requires
        s.mode == CspKissMode::KissModeNotStarted,
        id.wf(),
        data.len() >= 1,
        data.len() + 8 <= s.max,
    ensures
        kiss_rx_run(s, kiss_packet_frame(id, data)).0.mode == CspKissMode::KissModeNotStarted,
        kiss_rx_run(s, kiss_packet_frame(id, data)).1.len() == 1,
        kiss_frame_result(kiss_rx_run(s, kiss_packet_frame(id, data)).1[0]) == Ok::<
            (Id, Seq<u8>),
            Error,
        >((id, data)),
{
    let body = id_bytes(id) + with_crc(data);
    let p = seq![TNC_DATA] + body;
    assert(seq![TNC_DATA] + id_bytes(id) + with_crc(data) =~= p);
    lemma_id_round_trip(id);
        assert(p.drop_first() =~= body);
    lemma_kiss_frame_round_trip(s, p);
    let rest = body.subrange(4, body.len() as int);
    assert(rest =~= with_crc(data));
    lemma_crc_append_verifies(data);
    assert(crc_body(with_crc(data)) =~= data);
    assert(id_from_bytes(body) == id_from_bytes(id_bytes(id)));
}

proof fn lemma_rx_until_after_quiet(s: KissRxModel, a: Seq<u8>, b: Seq<u8>)
    requires
        kiss_rx_run(s, a).1.len() == 0,
    ensures
        kiss_rx_until(s, a + b) == kiss_rx_until(kiss_rx_run(s, a).0, b),
    decreases a.len(),
{
    if a.len() == 0 {
        assert(a + b =~= b);
    } else {
        assert((a + b)[0] == a[0]);
        assert((a + b).drop_first() =~= a.drop_first() + b);
        let s1 = kiss_rx_step(s, a[0]).0;
        lemma_rx_until_after_quiet(s1, a.drop_first(), b);
    }
}

/// The parser outside any frame, fed the frame of bytes `p` (at least one
/// byte, and no more after the first than a frame may hold), closes its
/// first frame at the frame's last byte: its data is `p` but its first
/// byte, and the parser is outside any frame again.
pub proof fn lemma_kiss_process_frame(s: KissRxModel, p: Seq<u8>)
    requires
        s.mode == CspKissMode::KissModeNotStarted,
        p.len() >= 1,
        p.len() - 1 <= s.max,
    ensures
        kiss_rx_until(s, kiss_frame(p)) == (
            KissRxModel {
                mode: CspKissMode::KissModeNotStarted,
                first: false,
                buf: Seq::empty(),
                max: s.max,
            },
            Some(p.drop_first()),
        ),
{
    let t = p.drop_first();
    let s1 = KissRxModel {
        mode: CspKissMode::KissModeStarted,
        first: true,
        buf: Seq::empty(),
        max: s.max,
    };
    let s2 = KissRxModel { first: false, ..s1 };
    lemma_rx_run_two(s, FEND, TNC_DATA);
    lemma_rx_run_one(s, FEND);
    lemma_rx_run_one(s1, TNC_DATA);
    lemma_rx_run_escaped(s2, t);
    lemma_rx_run_append(s, seq![FEND, TNC_DATA], kiss_escape(t));
    let pre = seq![FEND, TNC_DATA] + kiss_escape(t);
    let s3 = KissRxModel { buf: s2.buf + t, ..s2 };
    assert(Seq::<Seq<u8>>::empty() + Seq::<Seq<u8>>::empty() =~= Seq::<Seq<u8>>::empty());
    lemma_rx_until_after_quiet(s, pre, seq![FEND]);
    assert(seq![FEND].drop_first() =~= Seq::<u8>::empty());
    assert(s2.buf + t =~= t);
}

/// What `kiss_process_rx` gets from the frame a KISS link sends for a
/// packet with a well-formed identifier and a payload of at least one byte
/// that fits a frame: the first frame closes, it decodes to the same
/// identifier and payload, and the parser is outside any frame again, ready
/// for the next.
pub proof fn lemma_kiss_process_packet(s: KissRxModel, id: Id, data: Seq<u8>)
    requires
        s.mode == CspKissMode::KissModeNotStarted,
        id.wf(),
        data.len() >= 1,
        data.len() + 8 <= s.max,
    ensures
        kiss_rx_until(s, kiss_packet_frame(id, data)).0.mode == CspKissMode::KissModeNotStarted,
        kiss_rx_until(s, kiss_packet_frame(id, data)).1 is Some,
        kiss_frame_result(kiss_rx_until(s, kiss_packet_frame(id, data)).1->Some_0) == Ok::<
            (Id, Seq<u8>),
            Error,
        >((id, data)),
{
    lemma_kiss_packet_round_trip(s, id, data);
    let p = seq![TNC_DATA] + id_bytes(id) + with_crc(data);
    lemma_kiss_process_frame(s, p);
    lemma_kiss_frame_round_trip(s, p);
}

/// What `kiss_process_rx` gets from a frame too short to hold a header, a
/// payload byte and a checksum: a framing error, with the parser outside
/// any frame again, ready for the next.
pub proof fn lemma_kiss_process_short_frame(s: KissRxModel, p: Seq<u8>)
    requires
        s.mode == CspKissMode::KissModeNotStarted,
        p.len() >= 1,
        p.len() - 1 < KISS_MIN_FRAME_LENGTH,
        p.len() - 1 <= s.max,
    ensures
        kiss_rx_until(s, kiss_frame(p)).0.mode == CspKissMode::KissModeNotStarted,
        kiss_rx_until(s, kiss_frame(p)).1 == Some(p.drop_first()),
        kiss_frame_result(p.drop_first()) == Err::<(Id, Seq<u8>), Error>(Error::CspFramingError),
{
    lemma_kiss_process_frame(s, p);
}

} // verus!
