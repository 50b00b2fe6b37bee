use vstd::prelude::*;

use crate::error::RippleError;
use crate::extn_id::{extn_id_text, ExtnId, ExtnType};
use crate::manifest::{strings_view, ExtnSymbol, ExtnSymbolView};
use crate::table::Table;

verus! {

/// The sender an extension's channel uses for its outbound messages: the
/// gateway's outbound sender `O`, with the extension's id to tag each message
/// and the capabilities the extension declared it uses, which bound what it
/// may ask for.
#[derive(Debug)]
pub struct ExtnSender<O> {
    pub sender: O,
    pub id: ExtnId,
    pub permission: Vec<String>,
}

/// A message from an extension, tagged with its id and the capability it asks for.
#[derive(Debug)]
pub struct OutboundMessage<T> {
    pub extn_id: ExtnId,
    pub contract: String,
    pub payload: T,
}

/// The gateway itself may ask for anything; an extension only for what it
/// declared it uses.
pub open spec fn permits(id_type: ExtnType, permission: Seq<Seq<char>>, contract: Seq<char>) -> bool {
    id_type == ExtnType::Main || permission.contains(contract)
}

impl<O> ExtnSender<O> {
    pub fn new(sender: O, id: ExtnId, uses: Vec<String>) -> (r: ExtnSender<O>)
        ensures
            r.sender == sender,
            r.id == id,
            r.permission == uses,
    {
        ExtnSender { sender, id, permission: uses }
    }

    /// The outbound sender that carries this extension's messages.
    pub fn get_sender(&self) -> (r: &O)
        ensures
            *r == self.sender,
    {
        &self.sender
    }

    /// Tags a request for `contract` with the extension's id, for the
    /// outbound sender to carry; a request for a capability the extension
    /// may not use is refused.
    pub fn prepare_request<T>(&self, contract: String, payload: T) -> (r: Result<
        OutboundMessage<T>,
        RippleError,
    >)
        ensures
            permits(self.id.extn_type, strings_view(self.permission@), contract@) ==> (r matches Ok(
                m,
            ) && m.extn_id == self.id && m.contract == contract && m.payload == payload),
            !permits(self.id.extn_type, strings_view(self.permission@), contract@) ==> r
                == Err::<OutboundMessage<T>, RippleError>(RippleError::PermissionDenied),
    {
        if self.check_contract_permission(&contract) {
            Ok(OutboundMessage { extn_id: self.id.clone(), contract, payload })
        } else {
            Err(RippleError::PermissionDenied)
        }
    }

    pub fn check_contract_permission(&self, contract: &String) -> (r: bool)
        ensures
            r == permits(self.id.extn_type, strings_view(self.permission@), contract@),
    {
        if self.id.extn_type == ExtnType::Main {
            return true;
        }
        let ghost p = strings_view(self.permission@);
        let mut i: usize = 0;
        while i < self.permission.len()
            invariant
                i <= self.permission@.len(),
                p == strings_view(self.permission@),
                forall|k: int| 0 <= k < i ==> p[k] != contract@,
            decreases self.permission@.len() - i,
        {
            assert(p[i as int] == self.permission@[i as int]@);
            if self.permission[i] == *contract {
                assert(p.contains(contract@));
                return true;
            }
            i = i + 1;
        }
        false
    }
}

/// The client fabric: for each started extension, keyed by the text of its
/// id, its symbol and the sender into its inbound queue. `S` is that sender.
pub struct ExtnClient<S> {
    pub senders: Table<String, (ExtnSymbol, S)>,
}

impl<S> ExtnClient<S> {
    pub open spec fn wf(&self) -> bool {
        self.senders.wf()
    }

    /// The registered symbol and sender of each extension, by id text.
    pub open spec fn registered(&self) -> Map<Seq<char>, (ExtnSymbolView, S)> {
        self.senders@.map_values(|e: (ExtnSymbol, S)| (e.0@, e.1))
    }

    pub fn new() -> (r: Self)
        ensures
            r.wf(),
            r.registered() == Map::<Seq<char>, (ExtnSymbolView, S)>::empty(),
    {
        let r = ExtnClient { senders: Table::new() };
        proof {
            assert(r.registered() =~= Map::<Seq<char>, (ExtnSymbolView, S)>::empty());
        }
        r
    }

    /// Registers the queue of a started extension; a later registration of
    /// the same id replaces the earlier one.
    pub fn add_extn_sender(&mut self, id: ExtnId, symbol: ExtnSymbol, sender: S)
        requires
            old(self).wf(),
        ensures
            final(self).wf(),
            final(self).registered() == old(self).registered().insert(
                extn_id_text(id@),
                (symbol@, sender),
            ),
    {
        let ghost old_senders = self.senders@;
        let ghost entry = (symbol@, sender);
        self.senders.insert(id.to_string(), (symbol, sender));
        proof {
            assert(self.registered() =~= old_senders.map_values(|e: (ExtnSymbol, S)| (e.0@, e.1)).insert(
                extn_id_text(id@),
                entry,
            ));
        }
    }

    pub fn get_extn_sender(&self, id: &ExtnId) -> (r: Option<&S>)
        requires
            self.wf(),
        ensures
            match r {
                Some(s) => self.registered().contains_key(extn_id_text(id@)) && *s
                    == self.registered()[extn_id_text(id@)].1,
                None => !self.registered().contains_key(extn_id_text(id@)),
            },
    {
        match self.senders.get(&id.to_string()) {
            Some(e) => Some(&e.1),
            None => None,
        }
    }

    /// Removes the queue of an extension that stopped.
    pub fn remove_extn_sender(&mut self, id: &ExtnId)
        requires
            old(self).wf(),
        ensures
            final(self).wf(),
            final(self).registered() == old(self).registered().remove(extn_id_text(id@)),
    {
        let ghost old_senders = self.senders@;
        let _ = self.senders.remove(&id.to_string());
        proof {
            assert(self.registered() =~= old_senders.map_values(|e: (ExtnSymbol, S)| (e.0@, e.1)).remove(
                extn_id_text(id@),
            ));
        }
    }
}

} // verus!
