//! Keep SBD messages in memory.
//!
//! An append-only, insertion-ordered collection, useful for tests and for
//! serving without durable storage.

use crate::mo::Message;
use crate::mo::MessageV;
use crate::storage::spec_message_views;
use crate::Error;
use vstd::prelude::*;

verus! {

/// A storage backend that keeps the messages in memory, in the order they
/// were stored.
#[derive(Debug)]
pub struct Storage {
    messages: Vec<Message>,
}

impl Storage {
    /// Creates a new, empty memory storage.
    pub fn new() -> (r: Storage)
        ensures
            <Storage as crate::storage::Storage>::contents(&r) == Seq::<MessageV>::empty(),
    {
        let storage = Storage { messages: Vec::new() };
        proof {
            assert(spec_message_views(storage.messages@) =~= Seq::empty());
        }
        storage
    }
}

impl Default for Storage {
    /// The default memory storage is empty.
    fn default() -> (r: Storage)
        ensures
            <Storage as crate::storage::Storage>::contents(&r) == Seq::<MessageV>::empty(),
    {
        Storage::new()
    }
}

impl crate::storage::Storage for Storage {
    closed spec fn contents(&self) -> Seq<MessageV> {
        spec_message_views(self.messages@)
    }

    /// Storing in memory cannot fail: the message is always appended.
    fn store(&mut self, message: Message) -> (r: Result<(), Error>)
        ensures
            r is Ok,
    {
        let ghost pre = self.messages@;
        let ghost mv = message@;
        self.messages.push(message);
        proof {
            assert(spec_message_views(self.messages@) =~= spec_message_views(pre).push(mv));
        }
        Ok(())
    }

    /// Retrieval from memory cannot fail: the contents always come back.
    fn messages(&self) -> (r: Result<Vec<Message>, Error>)
        ensures
            r is Ok,
    {
        let mut copies: Vec<Message> = Vec::new();
        let mut i: usize = 0;
        proof {
            assert(spec_message_views(copies@) =~= spec_message_views(self.messages@).take(0));
        }
        while i < self.messages.len()
            invariant
                i <= self.messages@.len(),
                spec_message_views(copies@) =~= spec_message_views(self.messages@).take(i as int),
            decreases self.messages@.len() - i,
        {
            let ghost pre = copies@;
            copies.push(self.messages[i].clone());
            proof {
                assert(spec_message_views(copies@) =~= spec_message_views(pre).push(
                    self.messages@[i as int]@,
                ));
                assert(spec_message_views(self.messages@).take(i + 1) =~= spec_message_views(
                    self.messages@,
                ).take(i as int).push(self.messages@[i as int]@));
            }
            i = i + 1;
        }
        proof {
            assert(spec_message_views(self.messages@).take(self.messages@.len() as int)
                =~= spec_message_views(self.messages@));
        }
        Ok(copies)
    }

    /// Retrieval by device id from memory cannot fail either.
    fn messages_from_imei(&self, imei: &str) -> (r: Result<Vec<Message>, Error>)
        ensures
            r is Ok,
    {
        let all = match self.messages() {
            Ok(v) => v,
            Err(e) => {
                proof {
                    assert(false);
                }
                return Err(e);
            },
        };
        Ok(crate::storage::filter_messages_by_imei(&all, imei))
    }
}

} // verus!
