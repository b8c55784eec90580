//! Request batches and the decisions of the actor that feeds them to a
//! worker.

use vstd::prelude::*;

use crate::validator::Header;

verus! {

/// The target of a request as its three parts.
#[derive(Debug, Clone)]
pub struct RequestTarget {
    pub scheme: Option<String>,
    pub authority: Option<String>,
    pub path_and_query: Option<String>,
}

/// A request to be sent by a worker.
#[derive(Debug, Clone)]
pub struct Request {
    pub method: String,
    pub target: RequestTarget,
    pub headers: Vec<Header>,
    pub body: Vec<u8>,
}

/// A batch of requests or single to the workers.
#[derive(Debug)]
pub enum RequestBatch {
    /// All requests have been produced and no more will be returned.
    ///
    /// This will cause the workers to start shutting down.
    End,
    /// A new batch to process.
    Batch(Batch),
}

/// A batch of requests that share a tag.
#[derive(Debug, Clone)]
pub struct Batch {
    /// A optional tag ID for grouping results together.
    ///
    /// Samples are produced on a per-tag basis, so if a tag changes from the
    /// current sample vs the tag provided by the batch a new sample will be
    /// created.
    pub tag: usize,
    /// The ID of the first request of the batch. The requests that follow
    /// are numbered on from it.
    pub first_request_id: usize,
    /// The batch requests.
    pub requests: Vec<Request>,
}

impl Batch {
    /// Whether every request of the batch has an ID: numbering on from the
    /// first does not pass the largest number.
    pub open spec fn numbered(&self) -> bool {
        self.first_request_id + self.requests.len() <= usize::MAX
    }

    /// Whether every request of the batch has an ID.
    pub fn is_numbered(&self) -> (answer: bool)
        ensures
            answer == self.numbered(),
    {
        self.requests.len() <= usize::MAX - self.first_request_id
    }
}

/// How the wait of a producer actor for the go of its worker ended.
#[derive(Debug, Clone, Copy, PartialEq, Eq, Structural)]
pub enum GoSignal {
    /// The worker holds all its connections and gave the go.
    Go,
    /// The worker gave up without the go.
    Dropped,
}

/// What a producer actor does when its wait for the go has ended.
#[derive(Debug, Clone, Copy, PartialEq, Eq, Structural)]
pub enum ProducerStart {
    /// Tell the producer that the benchmark is ready and ask for batches.
    Produce,
    /// Close the channel and exit without a word to the producer.
    Close,
}

/// What a producer answered when it was asked for a batch.
#[derive(Debug)]
pub enum ProducerYield {
    /// No more work.
    End,
    /// A new batch to process.
    Batch(Batch),
    /// The producer failed.
    Failed,
}

/// What the producer actor does with an answer of its producer.
#[derive(Debug)]
pub enum ProducerAction {
    /// Send the batch to the worker, waiting while the channel is full, and
    /// ask for the next one unless the worker is gone.
    Send(Batch),
    /// Close the channel and exit.
    Close,
    /// Log the failure, close the channel and exit.
    LogAndClose,
}

/// What the producer actor does for each answer of its producer.
pub open spec fn action_for(answer: ProducerYield) -> ProducerAction {
    match answer {
        ProducerYield::End => ProducerAction::Close,
        ProducerYield::Batch(batch) => ProducerAction::Send(batch),
        ProducerYield::Failed => ProducerAction::LogAndClose,
    }
}

/// A producer actor waits for the go of its worker, tells the producer that
/// the benchmark is ready, and then hands batch after batch to the worker
/// until the producer ends or fails, or the worker is gone.
pub struct ProducerActor;

impl ProducerActor {
    /// The number of batches that the channel between the actor and a worker
    /// with `concurrency` connections can hold: four for every connection.
    pub open spec fn spec_buffer_size(concurrency: usize) -> int {
        4 * concurrency
    }

    /// The capacity of the channel for a worker with `concurrency`
    /// connections.
    pub fn buffer_size(concurrency: usize) -> (capacity: usize)
        requires
            Self::spec_buffer_size(concurrency) <= usize::MAX,
        ensures
            capacity == Self::spec_buffer_size(concurrency),
    {
        concurrency * 4
    }

    /// What to do when the wait for the go has ended: the producer is made
    /// ready and asked for batches only after the go.
    pub fn on_go(signal: GoSignal) -> (start: ProducerStart)
        ensures
            start == match signal {
                GoSignal::Go => ProducerStart::Produce,
                GoSignal::Dropped => ProducerStart::Close,
            },
    {
        match signal {
            GoSignal::Go => ProducerStart::Produce,
            GoSignal::Dropped => ProducerStart::Close,
        }
    }

    /// What to do with an answer of the producer.
    pub fn on_yield(answer: ProducerYield) -> (action: ProducerAction)
        ensures
            action == action_for(answer),
    {
        match answer {
            ProducerYield::End => ProducerAction::Close,
            ProducerYield::Batch(batch) => ProducerAction::Send(batch),
            ProducerYield::Failed => ProducerAction::LogAndClose,
        }
    }
}

} // verus!
