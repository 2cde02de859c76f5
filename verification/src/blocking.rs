//! The blocking client: batches are queued and one worker delivers them.

use crate::client::{built_from, ClientBuilder};
use crate::endpoint::InvalidEndpoint;
use crate::queue::{CommandModel, Command, Worker, WorkerModel};
use vstd::prelude::*;

verus! {

/// A client whose caller never waits for a delivery: it hands batches to a
/// queue, from which a single worker takes them.
pub struct Client {
    /// The client that the worker delivers with.
    pub client: crate::client::Client,
    /// How many batches the worker delivers in one cycle at most.
    pub queue_max: usize,
}

impl Client {
    /// Constructs a blocking client from a builder. Fails if the builder's
    /// endpoint does not resolve into a URI.
    pub fn new(builder: ClientBuilder) -> (built: Result<Client, InvalidEndpoint>)
        ensures
            match built {
                Ok(blocking) => built_from(builder, Ok(blocking.client)) && blocking.queue_max
                    == builder.blocking_queue_max,
                Err(e) => built_from(builder, Err(e)),
            },
    {
        let queue_max: usize = builder.blocking_queue_max;
        match builder.build() {
            Ok(client) => Ok(Client { client, queue_max }),
            Err(e) => Err(e),
        }
    }

    /// The worker of this client at the start of its loop, and the command
    /// that starts it.
    pub fn worker<T>(&self) -> (begun: (Worker<T>, Command<T>))
        ensures
            begun.0@ == WorkerModel::<T>::WaitForFirst,
            begun.1@ == CommandModel::<T>::Receive,
    {
        Worker::new()
    }
}

} // verus!
