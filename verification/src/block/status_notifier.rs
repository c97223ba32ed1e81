//! Notifications of blocks that are imported or finalized.

use vstd::prelude::*;

verus! {

/// What can go wrong when waiting for next chain status notification.
#[derive(Clone, Copy, Debug, PartialEq, Eq, Structural)]
pub enum Error {
    JustificationStreamClosed,
    ImportStreamClosed,
}

impl Error {
    /// What went wrong, in words.
    pub fn text(&self) -> (text: &'static str)
        ensures
            text@ == match *self {
                Error::JustificationStreamClosed => "finalization notification stream has ended"@,
                Error::ImportStreamClosed => "import notification stream has ended"@,
            },
    {
        match self {
            Error::JustificationStreamClosed => "finalization notification stream has ended",
            Error::ImportStreamClosed => "import notification stream has ended",
        }
    }
}

/// What happened to a block.
#[derive(Debug)]
pub enum ChainStatusNotification<H> {
    BlockImported(H),
    BlockFinalized(H),
}

/// What one of the two streams of notifications yields: a header, or its end.
#[derive(Debug)]
pub enum StreamItem<H> {
    Finality(Option<H>),
    Import(Option<H>),
}

/// What a notification is.
pub open spec fn notification<H>(item: StreamItem<H>) -> Result<ChainStatusNotification<H>, Error> {
    match item {
        StreamItem::Finality(Some(header)) => Ok(ChainStatusNotification::BlockFinalized(header)),
        StreamItem::Finality(None) => Err(Error::JustificationStreamClosed),
        StreamItem::Import(Some(header)) => Ok(ChainStatusNotification::BlockImported(header)),
        StreamItem::Import(None) => Err(Error::ImportStreamClosed),
    }
}

/// Joins the notifications of finalized and of imported blocks. A stream that
/// has ended is not waited for again.
#[derive(Debug)]
pub struct SubstrateChainStatusNotifier {
    finality_terminated: bool,
    import_terminated: bool,
}

impl SubstrateChainStatusNotifier {
    /// Whether the stream of finalized blocks is waited for.
    pub closed spec fn awaits_finality(&self) -> bool {
        !self.finality_terminated
    }

    /// Whether the stream of imported blocks is waited for.
    pub closed spec fn awaits_import(&self) -> bool {
        !self.import_terminated
    }

    /// Waits for both streams.
    pub fn new() -> (notifier: Self)
        ensures
            notifier.awaits_finality(),
            notifier.awaits_import(),
    {
        SubstrateChainStatusNotifier { finality_terminated: false, import_terminated: false }
    }

    /// Which streams are waited for: that of finalized and that of imported
    /// blocks.
    pub fn awaited(&self) -> (awaited: (bool, bool))
        ensures
            awaited == (self.awaits_finality(), self.awaits_import()),
    {
        (!self.finality_terminated, !self.import_terminated)
    }

    /// What an item of a stream that is waited for comes to.
    pub fn next<H>(&mut self, item: StreamItem<H>) -> (result: Result<
        ChainStatusNotification<H>,
        Error,
    >)
        requires
            match item {
                StreamItem::Finality(_) => old(self).awaits_finality(),
                StreamItem::Import(_) => old(self).awaits_import(),
            },
        ensures
            result == notification(item),
            final(self).awaits_finality() == (old(self).awaits_finality() && !(item matches
                StreamItem::Finality(None))),
            final(self).awaits_import() == (old(self).awaits_import() && !(item matches
                StreamItem::Import(None))),
    {
        match item {
            StreamItem::Finality(Some(header)) => Ok(
                ChainStatusNotification::BlockFinalized(header),
            ),
            StreamItem::Finality(None) => {
                self.finality_terminated = true;
                Err(Error::JustificationStreamClosed)
            },
            StreamItem::Import(Some(header)) => Ok(ChainStatusNotification::BlockImported(header)),
            StreamItem::Import(None) => {
                self.import_terminated = true;
                Err(Error::ImportStreamClosed)
            },
        }
    }
}

/// Each header is reported as what its stream says of it, and the end of each
/// stream with an error of its own.
pub proof fn headers_are_reported_by_their_stream<H>(header: H)
    ensures
        notification(StreamItem::Finality(Some(header))) == Ok::<_, Error>(
            ChainStatusNotification::BlockFinalized(header),
        ),
        notification(StreamItem::Import(Some(header))) == Ok::<_, Error>(
            ChainStatusNotification::BlockImported(header),
        ),
        notification(StreamItem::<H>::Finality(None)) == Err::<ChainStatusNotification<H>, _>(
            Error::JustificationStreamClosed,
        ),
        notification(StreamItem::<H>::Import(None)) == Err::<ChainStatusNotification<H>, _>(
            Error::ImportStreamClosed,
        ),
{
}

} // verus!
