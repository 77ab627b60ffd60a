//! Download: announce it, transfer the data block by block, end it.
//!
//! The server's answer to the announcement gives the longest Transfer Data
//! message that it takes. Of that length, fifteen bytes are set aside; the
//! rest is the number of data bytes per block. ISO 14229 counts only the two
//! bytes that open a Transfer Data message, so the blocks sent here are
//! shorter than the server would take. Blocks are numbered with a counter of
//! eight bits that starts at one and goes from 255 on to zero. The server
//! repeats the counter in its answer; the answer is not held against the
//! counter that was sent.

use vstd::prelude::*;
use crate::uds::client::{classify, failure_of, verdict_for, Reply, Step, UdsClient, Verdict};
use crate::uds::pdus::download::{
    DownloadRequest,
    DownloadResponse,
    ADDR_LEN_FORMAT,
    LENGTH_FORMAT,
    SID_DOWNLOAD_REQ,
};
use crate::uds::pdus::transfer::{
    TransferExitRequest,
    TransferExitResponse,
    TransferRequest,
    TransferResponse,
    SID_TRANSFER_EXIT_REQ,
    SID_TRANSFER_REQ,
};
use crate::uds::pdus::{answer, be16, be16_bytes, be32_bytes, RxPdu, TxPdu};

verus! {

/// The data format that every download is announced with: neither
/// compressed nor encrypted.
pub const DATA_FORMAT: u8 = 0x00;

/// The part of the server's block length that is kept free of data. It is
/// more than the two bytes that the standard asks for.
pub const BLOCK_OVERHEAD: u16 = 15;

/// The counter of the block with the given index, the first block having
/// index zero.
pub open spec fn block_counter(index: nat) -> u8 {
    ((index + 1) % 256) as u8
}

/// The first data byte after the block with the given index.
pub open spec fn block_end(len: nat, chunk: nat, index: nat) -> nat {
    if (index + 1) * chunk < len {
        (index + 1) * chunk
    } else {
        len
    }
}

/// The data bytes of the block with the given index, where every block but
/// the last has `chunk` bytes.
pub open spec fn block_payload(data: Seq<u8>, chunk: nat, index: nat) -> Seq<u8> {
    data.subrange((index * chunk) as int, block_end(data.len(), chunk, index) as int)
}

/// The Transfer Data message of the block with the given index.
pub open spec fn block_message(data: Seq<u8>, chunk: nat, index: nat) -> Seq<u8> {
    seq![SID_TRANSFER_REQ, block_counter(index)] + block_payload(data, chunk, index)
}

/// The number of blocks that `len` bytes are transferred in.
pub open spec fn block_count(len: nat, chunk: nat) -> nat {
    if len == 0 {
        0
    } else {
        ((len - 1) / chunk as int + 1) as nat
    }
}

/// The counter of the first block is one, and each block's counter is one
/// more than that of the block before, but that 255 is followed by zero: the
/// counters come back after 256 blocks.
pub proof fn lemma_block_counter_wraps(index: nat)
    ensures
        block_counter(0) == 1,
        block_counter(index + 1) == if block_counter(index) == 255 {
            0u8
        } else {
            (block_counter(index) + 1) as u8
        },
        block_counter(index + 256) == block_counter(index),
{
}

/// Data is left after the first `blocks` blocks exactly while `blocks` is
/// less than the number of blocks. So no block is sent for no data.
pub proof fn lemma_block_count(len: nat, chunk: nat, blocks: nat)
    requires
        chunk >= 1,
    ensures
        blocks * chunk < len <==> blocks < block_count(len, chunk),
        len == 0 ==> block_count(len, chunk) == 0,
{
    if len > 0 {
        let last: int = len - 1;
        let c: int = chunk as int;
        let b: int = blocks as int;
        assert(b * c <= last <==> b <= last / c) by (nonlinear_arith)
            requires
                c >= 1,
                last >= 0,
                b >= 0,
        ;
    } else {
        assert(blocks * chunk >= 0) by (nonlinear_arith);
    }
}

/// Every block has at least one byte and at most `chunk`, and every block
/// but the last has `chunk`.
pub proof fn lemma_block_size(data: Seq<u8>, chunk: nat, index: nat)
    requires
        chunk >= 1,
        index < block_count(data.len(), chunk),
    ensures
        1 <= block_payload(data, chunk, index).len() <= chunk,
        index + 1 < block_count(data.len(), chunk) ==> block_payload(data, chunk, index).len()
            == chunk,
{
    lemma_block_count(data.len(), chunk, index);
    lemma_block_count(data.len(), chunk, index + 1);
    assert((index + 1) * chunk == index * chunk + chunk) by (nonlinear_arith);
}

/// The blocks hold the data in order, every byte once: the byte at `at` is
/// in the block with index `at / chunk`, at `at % chunk`.
pub proof fn lemma_blocks_hold_data(data: Seq<u8>, chunk: nat, at: nat)
    requires
        chunk >= 1,
        at < data.len(),
    ensures
        at / chunk < block_count(data.len(), chunk),
        at % chunk < block_payload(data, chunk, at / chunk).len(),
        block_payload(data, chunk, at / chunk)[(at % chunk) as int] == data[at as int],
{
    let index: nat = at / chunk;
    let c: int = chunk as int;
    let a: int = at as int;
    assert(a == (a / c) * c + a % c && 0 <= a % c < c && a / c >= 0) by (nonlinear_arith)
        requires
            c >= 1,
            a >= 0,
    ;
    assert((index + 1) * chunk == index * chunk + chunk) by (nonlinear_arith);
    lemma_block_count(data.len(), chunk, index);
}

/// The message that announces a download of `len` bytes to `start_addr`.
pub open spec fn announcement(start_addr: u32, len: nat) -> Seq<u8> {
    seq![SID_DOWNLOAD_REQ, DATA_FORMAT, ADDR_LEN_FORMAT] + be32_bytes(start_addr) + be32_bytes(
        len as u32,
    )
}

/// The message that requests the end of the transfer.
pub open spec fn exit_message() -> Seq<u8> {
    seq![SID_TRANSFER_EXIT_REQ]
}

/// The messages that are out once the download is announced and the first
/// `blocks` blocks are sent, in the order in which they went out.
pub open spec fn transcript_after(start_addr: u32, data: Seq<u8>, chunk: nat, blocks: nat) -> Seq<
    Seq<u8>,
> {
    seq![announcement(start_addr, data.len())] + Seq::new(
        blocks,
        |index: int| block_message(data, chunk, index as nat),
    )
}

/// All the messages of a download that the server lets through: the
/// announcement, every block, and the request to end the transfer.
pub open spec fn full_transcript(start_addr: u32, data: Seq<u8>, chunk: nat) -> Seq<Seq<u8>> {
    transcript_after(start_addr, data, chunk, block_count(data.len(), chunk)).push(exit_message())
}

/// A download is the announcement, then one Transfer Data message per
/// block, each with the counter and the data bytes of its block, then the
/// request to end the transfer.
pub proof fn lemma_transcript_shape(start_addr: u32, data: Seq<u8>, chunk: nat, index: nat)
    requires
        chunk >= 1,
        index < block_count(data.len(), chunk),
    ensures
        full_transcript(start_addr, data, chunk).len() == block_count(data.len(), chunk) + 2,
        full_transcript(start_addr, data, chunk).first() == announcement(start_addr, data.len()),
        full_transcript(start_addr, data, chunk).last() == exit_message(),
        full_transcript(start_addr, data, chunk)[index as int + 1] == block_message(
            data,
            chunk,
            index,
        ),
        block_message(data, chunk, index)[0] == SID_TRANSFER_REQ,
        block_message(data, chunk, index)[1] == block_counter(index),
        block_message(data, chunk, index).skip(2) == block_payload(data, chunk, index),
{
    assert(block_message(data, chunk, index).skip(2) =~= block_payload(data, chunk, index));
}

/// A download of no data is the announcement and the request to end the
/// transfer: no Transfer Data message goes out.
pub proof fn lemma_transcript_of_empty_download(start_addr: u32, chunk: nat)
    ensures
        full_transcript(start_addr, Seq::empty(), chunk) == seq![
            announcement(start_addr, 0),
            exit_message(),
        ],
{
    assert(full_transcript(start_addr, Seq::empty(), chunk) =~= seq![
        announcement(start_addr, 0),
        exit_message(),
    ]);
}

/// One byte more than 256 full blocks takes 257 blocks, whose counters run
/// from one to 255, then zero, then one.
pub proof fn lemma_counter_wraps_in_long_download(
    start_addr: u32,
    data: Seq<u8>,
    chunk: nat,
    index: nat,
)
    requires
        chunk >= 1,
        data.len() == chunk * 256 + 1,
        index < 257,
    ensures
        block_count(data.len(), chunk) == 257,
        full_transcript(start_addr, data, chunk).len() == 259,
        full_transcript(start_addr, data, chunk)[index as int + 1][1] == if index < 255 {
            index as int + 1
        } else {
            index as int - 255
        },
{
    let c: int = chunk as int;
    assert((c * 256) / c == 256) by (nonlinear_arith)
        requires
            c >= 1,
    ;
    lemma_transcript_shape(start_addr, data, chunk, index);
}

/// How far a download has come.
pub enum DownloadProgress {
    /// The download was announced.
    Requested,
    /// The first `blocks` blocks went out, of `chunk` data bytes each.
    Transferring { chunk: nat, blocks: nat },
    /// All blocks went out, of `chunk` data bytes each, and the end of the
    /// transfer was requested.
    Exiting { chunk: nat },
}

enum Stage {
    Requested,
    Transferring,
    Exiting,
}

/// The exchange that downloads `data` to the server.
pub struct Download<'a> {
    start_addr: u32,
    data: &'a [u8],
    stage: Stage,
    chunk: usize,
    sent: usize,
    counter: u8,
    blocks: Ghost<nat>,
}

impl<'a> Download<'a> {
    #[verifier::type_invariant]
    spec fn inv(self) -> bool {
        &&& self.stage is Transferring ==> {
            &&& self.chunk >= 1
            &&& self.blocks@ >= 1
            &&& (self.blocks@ - 1) * self.chunk < self.data@.len()
            &&& self.sent == block_end(
                self.data@.len(),
                self.chunk as nat,
                (self.blocks@ - 1) as nat,
            )
            &&& self.counter == block_counter(self.blocks@)
        }
        &&& self.stage is Exiting ==> self.chunk >= 1
    }

    /// The address that the data goes to.
    pub closed spec fn start_addr(self) -> u32 {
        self.start_addr
    }

    /// The data that is downloaded.
    pub closed spec fn data(self) -> Seq<u8> {
        self.data@
    }

    /// How far the exchange has come.
    pub closed spec fn progress(self) -> DownloadProgress {
        match self.stage {
            Stage::Requested => DownloadProgress::Requested,
            Stage::Transferring => DownloadProgress::Transferring {
                chunk: self.chunk as nat,
                blocks: self.blocks@,
            },
            Stage::Exiting => DownloadProgress::Exiting { chunk: self.chunk as nat },
        }
    }

    /// The messages that the exchange has had transmitted so far, in the
    /// order in which they went out.
    pub open spec fn transcript(self) -> Seq<Seq<u8>> {
        match self.progress() {
            DownloadProgress::Requested => seq![
                announcement(self.start_addr(), self.data().len()),
            ],
            DownloadProgress::Transferring { chunk, blocks } => transcript_after(
                self.start_addr(),
                self.data(),
                chunk,
                blocks,
            ),
            DownloadProgress::Exiting { chunk } => full_transcript(
                self.start_addr(),
                self.data(),
                chunk,
            ),
        }
    }

    /// Whether `step` takes `message`. It does not where the message passes
    /// for the answer to the announcement, and names another length format
    /// than two bytes or a block length that leaves no room for data.
    pub open spec fn takes(self, message: Seq<u8>) -> bool {
        self.progress() is Requested && verdict_for::<DownloadRequest, DownloadResponse>(message)
            == Verdict::Positive ==> message[1] == LENGTH_FORMAT && be16(message[2], message[3])
            > BLOCK_OVERHEAD
    }

    /// Whether `r` is what follows once the first `blocks` blocks are out:
    /// the next block where data is left, else the request to end the
    /// transfer.
    pub open spec fn proceeds(self, chunk: nat, blocks: nat, r: Step<Download<'a>, ()>) -> bool {
        r matches Step::Send(next, message) && next.start_addr() == self.start_addr()
            && next.data() == self.data() && if blocks * chunk < self.data().len() {
            &&& message@ == block_message(self.data(), chunk, blocks)
            &&& next.progress() == (DownloadProgress::Transferring { chunk, blocks: blocks + 1 })
        } else {
            &&& message@ == exit_message()
            &&& next.progress() == (DownloadProgress::Exiting { chunk })
        }
    }

    /// Tells whether `step` takes `message`.
    pub fn accepts(&self, message: &[u8]) -> (r: bool)
        ensures
            r == self.takes(message@),
    {
        match self.stage {
            Stage::Requested => match classify(
                DownloadRequest::sid(),
                DownloadResponse::sid(),
                DownloadResponse::len_min(),
                DownloadResponse::len_max(),
                message,
            ) {
                Verdict::Positive => DownloadResponse::supports(message)
                    && DownloadResponse::deserialize(message).block_len > BLOCK_OVERHEAD,
                _ => true,
            },
            _ => true,
        }
    }

    /// Sends the block after the first `blocks`, or ends the transfer.
    fn proceed(
        start_addr: u32,
        data: &'a [u8],
        chunk: usize,
        sent: usize,
        counter: u8,
        blocks: Ghost<nat>,
    ) -> (r: Step<Download<'a>, ()>)
        requires
            chunk >= 1,
            sent == if blocks@ == 0 {
                0
            } else {
                block_end(data@.len(), chunk as nat, (blocks@ - 1) as nat)
            },
            blocks@ >= 1 ==> (blocks@ - 1) * chunk < data@.len(),
            counter == block_counter(blocks@),
        ensures
            r matches Step::Send(next, message) && next.start_addr() == start_addr && next.data()
                == data@ && if blocks@ * chunk < data@.len() {
                &&& message@ == block_message(data@, chunk as nat, blocks@)
                &&& next.progress() == (DownloadProgress::Transferring {
                    chunk: chunk as nat,
                    blocks: blocks@ + 1,
                })
                &&& next.transcript() == transcript_after(
                    start_addr,
                    data@,
                    chunk as nat,
                    blocks@,
                ).push(message@)
            } else {
                &&& message@ == exit_message()
                &&& next.progress() == (DownloadProgress::Exiting { chunk: chunk as nat })
                &&& next.transcript() == transcript_after(
                    start_addr,
                    data@,
                    chunk as nat,
                    blocks@,
                ).push(message@)
            },
    {
        let len: usize = data.len();
        assert(blocks@ * chunk == (blocks@ - 1) * chunk + chunk) by (nonlinear_arith);
        assert((blocks@ + 1) * chunk == blocks@ * chunk + chunk) by (nonlinear_arith);
        if sent >= len {
            let request = TransferExitRequest::new(vstd::slice::slice_subrange(data, 0, 0));
            let message = request.serialize();
            assert(message@ =~= exit_message());
            proof {
                // All blocks are out: their number is `blocks`.
                lemma_block_count(data@.len(), chunk as nat, blocks@);
                if blocks@ >= 1 {
                    lemma_block_count(data@.len(), chunk as nat, (blocks@ - 1) as nat);
                }
            }
            Step::Send(
                Download { start_addr, data, stage: Stage::Exiting, chunk, sent, counter, blocks },
                message,
            )
        } else {
            let end: usize = if len - sent < chunk {
                len
            } else {
                sent + chunk
            };
            let request = TransferRequest::new(
                counter,
                vstd::slice::slice_subrange(data, sent, end),
            );
            let message = request.serialize();
            assert(transcript_after(start_addr, data@, chunk as nat, blocks@ + 1)
                =~= transcript_after(start_addr, data@, chunk as nat, blocks@).push(message@));
            Step::Send(
                Download {
                    start_addr,
                    data,
                    stage: Stage::Transferring,
                    chunk,
                    sent: end,
                    counter: counter.wrapping_add(1),
                    blocks: Ghost(blocks@ + 1),
                },
                message,
            )
        }
    }

    /// Takes the next received message.
    ///
    /// The call goes on while the server asks for more time, and ends with
    /// the error that any message gives. The answer to the announcement
    /// fixes the number of data bytes per block, the server's block length
    /// less fifteen, and has the first block sent. Every answer to a block
    /// has the next block sent, and the answer to the last block has the end
    /// of the transfer requested; with no data, the answer to the
    /// announcement does. The answer to the request to end the transfer
    /// ends the call: by then, the transcript is that of the whole
    /// download.
    pub fn step(self, message: &[u8]) -> (r: Step<Download<'a>, ()>)
        requires
            self.takes(message@),
        ensures
            match self.progress() {
                DownloadProgress::Requested => match verdict_for::<
                    DownloadRequest,
                    DownloadResponse,
                >(message@) {
                    Verdict::Pending => r == Step::<Download<'a>, ()>::Wait(self),
                    Verdict::Positive => self.proceeds(
                        (be16(message@[2], message@[3]) - BLOCK_OVERHEAD) as nat,
                        0,
                        r,
                    ),
                    refusal => r.fails_with(failure_of(refusal).unwrap()),
                },
                DownloadProgress::Transferring { chunk, blocks } => match verdict_for::<
                    TransferRequest,
                    TransferResponse,
                >(message@) {
                    Verdict::Pending => r == Step::<Download<'a>, ()>::Wait(self),
                    Verdict::Positive => self.proceeds(chunk, blocks, r),
                    refusal => r.fails_with(failure_of(refusal).unwrap()),
                },
                DownloadProgress::Exiting { chunk } => match verdict_for::<
                    TransferExitRequest,
                    TransferExitResponse,
                >(message@) {
                    Verdict::Pending => r == Step::<Download<'a>, ()>::Wait(self),
                    Verdict::Positive => r matches Step::Done(Ok(_)),
                    refusal => r.fails_with(failure_of(refusal).unwrap()),
                },
            },
            r matches Step::Send(next, sent) ==> next.transcript() == self.transcript().push(sent@),
    {
        proof {
            use_type_invariant(&self);
        }
        match self.stage {
            Stage::Requested => match UdsClient::receive::<DownloadRequest, DownloadResponse>(
                message,
            ) {
                Reply::Pending => Step::Wait(self),
                Reply::Done(Err(error)) => Step::Done(Err(error)),
                Reply::Done(Ok(response)) => {
                    let chunk: usize = (response.block_len - BLOCK_OVERHEAD) as usize;
                    assert(transcript_after(self.start_addr, self.data@, chunk as nat, 0)
                        =~= self.transcript());
                    Self::proceed(self.start_addr, self.data, chunk, 0, 1, Ghost(0))
                },
            },
            Stage::Transferring => match UdsClient::receive::<TransferRequest, TransferResponse>(
                message,
            ) {
                Reply::Pending => Step::Wait(self),
                Reply::Done(Err(error)) => Step::Done(Err(error)),
                Reply::Done(Ok(_)) => Self::proceed(
                    self.start_addr,
                    self.data,
                    self.chunk,
                    self.sent,
                    self.counter,
                    self.blocks,
                ),
            },
            Stage::Exiting => match UdsClient::receive::<TransferExitRequest, TransferExitResponse>(
                message,
            ) {
                Reply::Pending => Step::Wait(self),
                Reply::Done(Err(error)) => Step::Done(Err(error)),
                Reply::Done(Ok(_)) => Step::Done(Ok(())),
            },
        }
    }
}

impl UdsClient {
    /// Opens the exchange that downloads `data` to the address `start_addr`:
    /// the announcement `34 00 44`, the address and the number of bytes of
    /// `data` is to be transmitted.
    pub fn download<'a>(start_addr: u32, data: &'a [u8]) -> (r: Step<Download<'a>, ()>)
        requires
            data@.len() < u32::MAX,
        ensures
            r matches Step::Send(next, message) && {
                &&& message@ == announcement(start_addr, data@.len())
                &&& next.start_addr() == start_addr
                &&& next.data() == data@
                &&& next.progress() == DownloadProgress::Requested
                &&& next.transcript() == seq![message@]
            },
    {
        let request = DownloadRequest::new(DATA_FORMAT, start_addr, data.len() as u32);
        Step::Send(
            Download {
                start_addr,
                data,
                stage: Stage::Requested,
                chunk: 0,
                sent: 0,
                counter: 1,
                blocks: Ghost(0),
            },
            request.serialize(),
        )
    }
}

/// A server that grants a download with the length format of two bytes and
/// a block length is understood: its answer passes for the response, and
/// what is read of it are that format and that length.
pub proof fn lemma_download_answer(
    start_addr: u32,
    size: u32,
    block_len: u16,
    response: DownloadResponse,
)
    requires
        response.holds(
            answer(
                seq![SID_DOWNLOAD_REQ, DATA_FORMAT, ADDR_LEN_FORMAT] + be32_bytes(start_addr)
                    + be32_bytes(size),
                seq![LENGTH_FORMAT] + be16_bytes(block_len),
            ),
        ),
    ensures
        verdict_for::<DownloadRequest, DownloadResponse>(
            answer(
                seq![SID_DOWNLOAD_REQ, DATA_FORMAT, ADDR_LEN_FORMAT] + be32_bytes(start_addr)
                    + be32_bytes(size),
                seq![LENGTH_FORMAT] + be16_bytes(block_len),
            ),
        ) == Verdict::Positive,
        DownloadResponse::supported(
            answer(
                seq![SID_DOWNLOAD_REQ, DATA_FORMAT, ADDR_LEN_FORMAT] + be32_bytes(start_addr)
                    + be32_bytes(size),
                seq![LENGTH_FORMAT] + be16_bytes(block_len),
            ),
        ),
        response.length_format_id == LENGTH_FORMAT,
        response.block_len == block_len,
{
    assert(0x34u8 | 0x40u8 == 0x74u8) by (bit_vector);
}

/// A server that grants a block with the counter of the block is
/// understood: its answer passes for the response, and what is read of it
/// are that counter and the payload.
pub proof fn lemma_transfer_answer(
    counter: u8,
    block: Seq<u8>,
    payload: Seq<u8>,
    response: TransferResponse,
)
    requires
        payload.len() + 2 <= usize::MAX,
        response.holds(answer(seq![SID_TRANSFER_REQ, counter] + block, seq![counter] + payload)),
    ensures
        verdict_for::<TransferRequest, TransferResponse>(
            answer(seq![SID_TRANSFER_REQ, counter] + block, seq![counter] + payload),
        ) == Verdict::Positive,
        response.block_seq_counter == counter,
        response.payload@ == payload,
{
    assert(0x36u8 | 0x40u8 == 0x76u8) by (bit_vector);
    let message = answer(seq![SID_TRANSFER_REQ, counter] + block, seq![counter] + payload);
    assert(message.subrange(2, message.len() as int) =~= payload);
}

/// A server that grants the end of a transfer is understood: its answer
/// passes for the response, and what is read of it is the payload.
pub proof fn lemma_transfer_exit_answer(payload: Seq<u8>, response: TransferExitResponse)
    requires
        payload.len() + 1 <= usize::MAX,
        response.holds(answer(seq![SID_TRANSFER_EXIT_REQ], payload)),
    ensures
        verdict_for::<TransferExitRequest, TransferExitResponse>(
            answer(seq![SID_TRANSFER_EXIT_REQ], payload),
        ) == Verdict::Positive,
        response.payload@ == payload,
{
    assert(0x37u8 | 0x40u8 == 0x77u8) by (bit_vector);
    let message = answer(seq![SID_TRANSFER_EXIT_REQ], payload);
    assert(message.subrange(1, message.len() as int) =~= payload);
}

} // verus!
