//! The page extractor: from the blocks of the page to one data frame per
//! queue.
//!
//! A block is a part of the page that may describe a queue. It does so where
//! its content holds the marker phrase; its values are then read by position:
//! the number of people waiting, the label of the ticket called last, and the
//! estimated wait in minutes.

use crate::frame::QueueDataFrame;
use crate::text::{
    chars_of, contains, has_infix, length_without_suffix, parse_number, parse_usize,
    without_suffix,
};
use crate::ticket::{ticket_of, Ticket};
use vstd::prelude::*;
use vstd::slice::slice_subrange;

verus! {

/// The phrase that the content of a block holds where the block describes a
/// queue.
pub const BLOCK_CONTENT_FILTER: &'static str = "Wartende Personen";

/// The unit that may follow the estimated wait.
pub const UNIT_SUFFIX: &'static str = " Minuten";

/// The number of queues that the page has to describe.
pub const REQUIRED_BLOCKS: usize = 2;

/// One block of the page: its content as markup, and the content of each of
/// its value elements, in document order.
#[derive(Debug, PartialEq, Eq)]
pub struct Block {
    pub content: String,
    pub values: Vec<String>,
}

/// A block as a mathematical value.
pub struct BlockView {
    pub content: Seq<char>,
    pub values: Seq<Seq<char>>,
}

/// The views of the strings in `strings`.
pub open spec fn texts(strings: Seq<String>) -> Seq<Seq<char>> {
    strings.map_values(|s: String| s@)
}

impl View for Block {
    type V = BlockView;

    open spec fn view(&self) -> BlockView {
        BlockView { content: self.content@, values: texts(self.values@) }
    }
}

/// The views of the blocks in `blocks`.
pub open spec fn block_views(blocks: Seq<Block>) -> Seq<BlockView> {
    blocks.map_values(|b: Block| b@)
}

/// Why a page could not be read.
#[derive(Debug, Clone, Copy, PartialEq, Eq, Structural)]
pub enum ParseError {
    /// A block that describes a queue has fewer than three values.
    InsufficientFields,
    /// The number of people waiting is no number.
    PeopleWaiting,
    /// The label of the ticket called last is no ticket.
    LastCalledTicket,
    /// The estimated wait is no number.
    WaitingTime,
    /// Fewer than two blocks describe a queue.
    InsufficientBlocks,
    /// The page has more bytes than a page that can be parsed.
    PageTooLong,
}

impl ParseError {
    /// The error in words.
    pub open spec fn spec_message(self) -> Seq<char> {
        match self {
            ParseError::InsufficientFields => "not enough lines"@,
            ParseError::PeopleWaiting => "cannot parse waiting persons"@,
            ParseError::LastCalledTicket => "cannot parse current ticket"@,
            ParseError::WaitingTime => "cannot parse waiting-time estimation"@,
            ParseError::InsufficientBlocks => "not enough data blocks"@,
            ParseError::PageTooLong => "page too long"@,
        }
    }

    /// The error in words.
    pub fn message(&self) -> (text: &'static str)
        ensures
            text@ == self.spec_message(),
    {
        match self {
            ParseError::InsufficientFields => "not enough lines",
            ParseError::PeopleWaiting => "cannot parse waiting persons",
            ParseError::LastCalledTicket => "cannot parse current ticket",
            ParseError::WaitingTime => "cannot parse waiting-time estimation",
            ParseError::InsufficientBlocks => "not enough data blocks",
            ParseError::PageTooLong => "page too long",
        }
    }
}

/// Whether `block` describes a queue: its content holds the marker phrase.
pub open spec fn qualifies(block: BlockView) -> bool {
    has_infix(block.content, BLOCK_CONTENT_FILTER@)
}

/// The data frame that the values of a block give.
///
/// There have to be three values at least. The first is the number of people
/// waiting, the second the label of the ticket called last, the third the
/// estimated wait, with or without its unit. The first of them that cannot be
/// read names the error. No wait has been measured yet.
pub open spec fn frame_of(values: Seq<Seq<char>>) -> Result<QueueDataFrame, ParseError> {
    if values.len() < 3 {
        Err(ParseError::InsufficientFields)
    } else {
        match parse_number(values[0]) {
            None => Err(ParseError::PeopleWaiting),
            Some(people_waiting) => match ticket_of(values[1]) {
                Err(_) => Err(ParseError::LastCalledTicket),
                Ok(last_called_ticket) => match parse_number(
                    without_suffix(values[2], UNIT_SUFFIX@),
                ) {
                    None => Err(ParseError::WaitingTime),
                    Some(waiting_time_estimation) => Ok(
                        QueueDataFrame {
                            people_waiting,
                            last_called_ticket,
                            waiting_time_estimation,
                            tracked_waiting_time: None,
                        },
                    ),
                },
            },
        }
    }
}

/// The data frames of the blocks that describe a queue, in document order, or
/// the error of the first such block that cannot be read.
pub open spec fn frames_of(blocks: Seq<BlockView>) -> Result<Seq<QueueDataFrame>, ParseError>
    decreases blocks.len(),
{
    if blocks.len() == 0 {
        Ok(Seq::empty())
    } else {
        match frames_of(blocks.drop_last()) {
            Err(e) => Err(e),
            Ok(frames) => if !qualifies(blocks.last()) {
                Ok(frames)
            } else {
                match frame_of(blocks.last().values) {
                    Err(e) => Err(e),
                    Ok(frame) => Ok(frames.push(frame)),
                }
            },
        }
    }
}

/// What a page of these blocks gives: the data frames of its queues, of which
/// there have to be two at least.
pub open spec fn extracted(blocks: Seq<BlockView>) -> Result<Seq<QueueDataFrame>, ParseError> {
    match frames_of(blocks) {
        Err(e) => Err(e),
        Ok(frames) => if frames.len() < REQUIRED_BLOCKS {
            Err(ParseError::InsufficientBlocks)
        } else {
            Ok(frames)
        },
    }
}

/// The blocks among `blocks` that describe a queue, in document order.
pub open spec fn queues(blocks: Seq<BlockView>) -> Seq<BlockView> {
    blocks.filter(|b: BlockView| qualifies(b))
}

/// An error in the first blocks of a page is the error of the page.
pub proof fn lemma_error_stays(blocks: Seq<BlockView>, n: int)
    requires
        0 <= n <= blocks.len(),
        frames_of(blocks.take(n)) is Err,
    ensures
        frames_of(blocks) == frames_of(blocks.take(n)),
    decreases blocks.len(),
{
    if n == blocks.len() {
        assert(blocks.take(n) == blocks);
    } else {
        assert(blocks.drop_last().take(n) == blocks.take(n));
        lemma_error_stays(blocks.drop_last(), n);
    }
}

/// Where every block that describes a queue can be read, the page gives one
/// data frame for each of them, in document order.
pub proof fn lemma_frames_in_document_order(blocks: Seq<BlockView>)
    requires
        forall|i: int|
            0 <= i < blocks.len() && qualifies(blocks[i]) ==> frame_of(
                #[trigger] blocks[i].values,
            ) is Ok,
    ensures
        frames_of(blocks) == Ok::<Seq<QueueDataFrame>, ParseError>(
            queues(blocks).map_values(|b: BlockView| frame_of(b.values)->Ok_0),
        ),
    decreases blocks.len(),
{
    reveal(Seq::filter);
    let read = |b: BlockView| frame_of(b.values)->Ok_0;
    if blocks.len() == 0 {
        assert(queues(blocks).map_values(read) =~= Seq::empty());
    } else {
        let before = blocks.drop_last();
        assert forall|i: int| 0 <= i < before.len() && qualifies(before[i]) implies frame_of(
            #[trigger] before[i].values,
        ) is Ok by {
            assert(before[i] == blocks[i]);
        }
        lemma_frames_in_document_order(before);
        if qualifies(blocks.last()) {
            assert(frame_of(blocks[blocks.len() - 1].values) is Ok);
            assert(queues(blocks) == queues(before).push(blocks.last()));
            assert(queues(blocks).map_values(read) =~= queues(before).map_values(read).push(
                read(blocks.last()),
            ));
        } else {
            assert(queues(blocks) == queues(before));
        }
    }
}

/// A page on which exactly two blocks describe a queue, both of them readable,
/// gives the data frames of the two, the earlier block first.
pub proof fn lemma_two_queues(blocks: Seq<BlockView>)
    requires
        queues(blocks).len() == 2,
        frame_of(queues(blocks)[0].values) is Ok,
        frame_of(queues(blocks)[1].values) is Ok,
    ensures
        extracted(blocks) == Ok::<Seq<QueueDataFrame>, ParseError>(
            seq![
                frame_of(queues(blocks)[0].values)->Ok_0,
                frame_of(queues(blocks)[1].values)->Ok_0,
            ],
        ),
{
    let read = |b: BlockView| frame_of(b.values)->Ok_0;
    assert forall|i: int| 0 <= i < blocks.len() && qualifies(blocks[i]) implies frame_of(
        #[trigger] blocks[i].values,
    ) is Ok by {
        lemma_queue_position(blocks, i);
    }
    lemma_frames_in_document_order(blocks);
    assert(queues(blocks).map_values(read) =~= seq![
        frame_of(queues(blocks)[0].values)->Ok_0,
        frame_of(queues(blocks)[1].values)->Ok_0,
    ]);
}

/// A block that describes a queue is one of the queues of its page.
pub proof fn lemma_queue_position(blocks: Seq<BlockView>, i: int)
    requires
        0 <= i < blocks.len(),
        qualifies(blocks[i]),
    ensures
        exists|k: int| 0 <= k < queues(blocks).len() && queues(blocks)[k] == blocks[i],
    decreases blocks.len(),
{
    reveal(Seq::filter);
    let before = blocks.drop_last();
    if i == blocks.len() - 1 {
        assert(queues(blocks) == queues(before).push(blocks.last()));
        assert(queues(blocks)[queues(before).len() as int] == blocks[i]);
    } else {
        lemma_queue_position(before, i);
        let k = choose|k: int| 0 <= k < queues(before).len() && queues(before)[k] == before[i];
        if qualifies(blocks.last()) {
            assert(queues(blocks) == queues(before).push(blocks.last()));
        } else {
            assert(queues(blocks) == queues(before));
        }
        assert(queues(blocks)[k] == blocks[i]);
    }
}

/// A page on which fewer than two blocks describe a queue, all of them
/// readable, fails for want of blocks.
pub proof fn lemma_too_few_queues(blocks: Seq<BlockView>)
    requires
        queues(blocks).len() < 2,
        forall|i: int|
            0 <= i < blocks.len() && qualifies(blocks[i]) ==> frame_of(
                #[trigger] blocks[i].values,
            ) is Ok,
    ensures
        extracted(blocks) == Err::<Seq<QueueDataFrame>, ParseError>(
            ParseError::InsufficientBlocks,
        ),
{
    lemma_frames_in_document_order(blocks);
}

/// The first block that describes a queue and cannot be read decides the
/// error of the page. So a block with fewer than three values, after blocks
/// that can be read, fails the page for want of fields.
pub proof fn lemma_first_unreadable_queue(blocks: Seq<BlockView>, i: int)
    requires
        0 <= i < blocks.len(),
        qualifies(blocks[i]),
        frame_of(blocks[i].values) is Err,
        forall|j: int|
            0 <= j < i && qualifies(blocks[j]) ==> frame_of(#[trigger] blocks[j].values) is Ok,
    ensures
        extracted(blocks) == Err::<Seq<QueueDataFrame>, ParseError>(
            frame_of(blocks[i].values)->Err_0,
        ),
        blocks[i].values.len() < 3 ==> extracted(blocks) == Err::<
            Seq<QueueDataFrame>,
            ParseError,
        >(ParseError::InsufficientFields),
{
    let before = blocks.take(i);
    let upto = blocks.take(i + 1);
    assert forall|j: int| 0 <= j < before.len() && qualifies(before[j]) implies frame_of(
        #[trigger] before[j].values,
    ) is Ok by {
        assert(before[j] == blocks[j]);
    }
    lemma_frames_in_document_order(before);
    assert(upto.drop_last() == before);
    assert(upto.last() == blocks[i]);
    lemma_error_stays(blocks, i + 1);
}

/// Reads the values of one block that describes a queue.
pub fn parse_block(values: &Vec<String>) -> (frame: Result<QueueDataFrame, ParseError>)
    ensures
        frame == frame_of(texts(values@)),
{
    if values.len() < 3 {
        return Err(ParseError::InsufficientFields);
    }
    let first = chars_of(values[0].as_str());
    let people_waiting = match parse_usize(first.as_slice()) {
        Some(n) => n,
        None => {
            return Err(ParseError::PeopleWaiting);
        },
    };
    let last_called_ticket = match Ticket::parse(values[1].as_str()) {
        Ok(ticket) => ticket,
        Err(_) => {
            return Err(ParseError::LastCalledTicket);
        },
    };
    let third = chars_of(values[2].as_str());
    let unit = chars_of(UNIT_SUFFIX);
    let kept = length_without_suffix(third.as_slice(), unit.as_slice());
    let waiting_time_estimation = match parse_usize(slice_subrange(third.as_slice(), 0, kept)) {
        Some(n) => n,
        None => {
            return Err(ParseError::WaitingTime);
        },
    };
    Ok(
        QueueDataFrame {
            people_waiting,
            last_called_ticket,
            waiting_time_estimation,
            tracked_waiting_time: None,
        },
    )
}

/// Reads the blocks of a page.
pub fn extract(blocks: &Vec<Block>) -> (frames: Result<Vec<QueueDataFrame>, ParseError>)
    ensures
        match frames {
            Ok(found) => extracted(block_views(blocks@)) == Ok::<Seq<QueueDataFrame>, ParseError>(
                found@,
            ),
            Err(e) => extracted(block_views(blocks@)) == Err::<Seq<QueueDataFrame>, ParseError>(e),
        },
{
    let marker = chars_of(BLOCK_CONTENT_FILTER);
    let ghost page = block_views(blocks@);
    let mut found: Vec<QueueDataFrame> = Vec::new();
    let mut i: usize = 0;
    assert(page.take(0) == Seq::<BlockView>::empty());
    while i < blocks.len()
        invariant
            marker@ == BLOCK_CONTENT_FILTER@,
            page == block_views(blocks@),
            i <= blocks.len(),
            frames_of(page.take(i as int)) == Ok::<Seq<QueueDataFrame>, ParseError>(found@),
        decreases blocks.len() - i,
    {
        let block = &blocks[i];
        let ghost upto = page.take(i + 1);
        proof {
            assert(upto.drop_last() == page.take(i as int));
            assert(upto.last() == block@);
        }
        let content = chars_of(block.content.as_str());
        if contains(content.as_slice(), marker.as_slice()) {
            match parse_block(&block.values) {
                Ok(frame) => {
                    found.push(frame);
                },
                Err(e) => {
                    proof {
                        lemma_error_stays(page, i + 1);
                    }
                    return Err(e);
                },
            }
        }
        i += 1;
    }
    assert(page.take(blocks.len() as int) == page);
    if found.len() < REQUIRED_BLOCKS {
        Err(ParseError::InsufficientBlocks)
    } else {
        Ok(found)
    }
}

} // verus!
