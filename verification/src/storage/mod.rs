//! Keeping decoded SBD messages and retrieving them later.

mod memory;
mod path;

pub use self::memory::Storage as MemoryStorage;
pub use self::path::spec_storage_path;
pub use self::path::spec_storage_path_at;
pub use self::path::storage_path;
pub use self::path::storage_path_from_civil;

use crate::mo::Message;
use crate::mo::MessageV;
use crate::Error;
use vstd::prelude::*;
use vstd::seq_lib::group_seq_properties;
use vstd::string::StringSliceAdditionalSpecFns;

verus! {

/// The images of a sequence of messages.
pub open spec fn spec_message_views(v: Seq<Message>) -> Seq<MessageV> {
    v.map_values(|m: Message| m@)
}

/// True of the messages that bear the given device id.
pub open spec fn spec_imei_pred(imei: Seq<u8>) -> spec_fn(MessageV) -> bool {
    |m: MessageV| m.header.imei == imei
}

/// Basic storage operations.
///
/// A storage holds messages in the order they were stored. Its contract is
/// stated over that abstract order, so every verified caller — the delivery
/// server above all — gets the same guarantees from any store that honors
/// it.
pub trait Storage {
    /// The messages this storage holds, in the order they were stored.
    spec fn contents(&self) -> Seq<MessageV>;

    /// Stores a message, consuming it.
    ///
    /// On success the message stands newest in the contents; the store runs
    /// atomically with respect to other `store` calls.
    fn store(&mut self, message: Message) -> (r: Result<(), Error>)
        ensures
            r is Ok ==> final(self).contents() == old(self).contents().push(message@),
    ;

    /// Retrieves all messages in this storage as a vector.
    fn messages(&self) -> (r: Result<Vec<Message>, Error>)
        ensures
            r matches Ok(v) ==> spec_message_views(v@) == self.contents(),
    ;

    /// Retrieves all messages that bear the given device id, keeping their
    /// stored order.
    ///
    /// The default implementation filters the vector that `messages`
    /// provides; an implementor may retrieve more directly, under the same
    /// contract: on success the result holds exactly the stored messages
    /// whose device id equals `imei`, in order.
    fn messages_from_imei(&self, imei: &str) -> (r: Result<Vec<Message>, Error>)
        ensures
            r matches Ok(v) ==> spec_message_views(v@) == self.contents().filter(
                spec_imei_pred(imei.spec_bytes()),
            ),
    {
        let all = match self.messages() {
            Ok(v) => v,
            Err(e) => {
                return Err(e);
            },
        };
        Ok(filter_messages_by_imei(&all, imei))
    }
}

/// Keeps exactly the messages that bear the given device id, in their given
/// order.
pub fn filter_messages_by_imei(all: &Vec<Message>, imei: &str) -> (r: Vec<Message>)
    ensures
        spec_message_views(r@) == spec_message_views(all@).filter(
            spec_imei_pred(imei.spec_bytes()),
        ),
{
    let imei_bytes = imei.as_bytes();
    let ghost pred = spec_imei_pred(imei.spec_bytes());
    let mut kept: Vec<Message> = Vec::new();
    let mut i: usize = 0;
    proof {
        reveal(Seq::filter);
        assert(spec_message_views(all@).take(0) =~= Seq::empty());
        assert(Seq::<MessageV>::empty().filter(pred) =~= Seq::empty());
        assert(spec_message_views(kept@) =~= Seq::empty());
    }
    while i < all.len()
        invariant
            i <= all@.len(),
            imei_bytes@ == imei.spec_bytes(),
            pred == spec_imei_pred(imei.spec_bytes()),
            spec_message_views(kept@) == spec_message_views(all@).take(i as int).filter(pred),
        decreases all@.len() - i,
    {
        let ghost views = spec_message_views(all@);
        let matches_imei = imei_eq(&all[i], imei_bytes);
        proof {
            reveal(Seq::filter);
            let taken = views.take(i + 1);
            assert(taken.drop_last() =~= views.take(i as int));
            assert(taken.last() == views[i as int]);
            if pred(views[i as int]) {
                assert(taken.filter(pred) == views.take(i as int).filter(pred).push(
                    views[i as int],
                ));
            } else {
                assert(taken.filter(pred) == views.take(i as int).filter(pred));
            }
        }
        if matches_imei {
            let ghost pre = kept@;
            kept.push(all[i].clone());
            proof {
                assert(spec_message_views(kept@) =~= spec_message_views(pre).push(
                    views[i as int],
                ));
            }
        }
        i = i + 1;
    }
    proof {
        assert(spec_message_views(all@).take(all@.len() as int) =~= spec_message_views(all@));
    }
    kept
}

/// Returns true if the message bears exactly the given device id bytes.
fn imei_eq(message: &Message, imei: &[u8]) -> (r: bool)
    ensures
        r == (message@.header.imei == imei@),
{
    proof {
        use_type_invariant(message);
    }
    if imei.len() != 15 {
        return false;
    }
    let header = message.header();
    let mut i: usize = 0;
    while i < 15
        invariant
            i <= 15,
            imei@.len() == 15,
            header@ == message@.header,
            forall|k: int| 0 <= k < i ==> header.imei@[k] == imei@[k],
        decreases 15 - i,
    {
        if header.imei[i] != imei[i] {
            return false;
        }
        i = i + 1;
    }
    proof {
        assert(header.imei@ =~= imei@);
    }
    true
}

/// Concurrent deliveries cannot lose messages: the storage lock serializes
/// two stores into one order or the other, and under either order both
/// messages are in the contents, which hold the same messages either way.
pub proof fn lemma_concurrent_stores_keep_both(s: Seq<MessageV>, a: MessageV, b: MessageV)
    ensures
        s.push(a).push(b).contains(a),
        s.push(a).push(b).contains(b),
        s.push(a).push(b).to_multiset() == s.push(b).push(a).to_multiset(),
{
    broadcast use group_seq_properties;

    assert(s.push(a)[s.len() as int] == a);
    assert(s.push(a).push(b)[s.len() as int] == a);
    assert(s.push(a).push(b)[s.len() as int + 1] == b);
    s.to_multiset_ensures();
    s.push(a).to_multiset_ensures();
    s.push(b).to_multiset_ensures();
    assert(s.push(a).push(b).to_multiset() =~= s.to_multiset().insert(a).insert(b));
    assert(s.push(b).push(a).to_multiset() =~= s.to_multiset().insert(b).insert(a));
    assert(s.to_multiset().insert(a).insert(b) =~= s.to_multiset().insert(b).insert(a));
}

} // verus!
