//! The publisher: checks a submission, builds and signs the message, and
//! records the broadcast of it over its pool.

use vstd::prelude::*;

use crate::bindings::{event_id_of, tags_view};
use crate::message::{well_formed, Draft, Identity, Message};
use crate::pool::{any_sent, after_broadcast, outcome_entries, PublishOutcome, RelayPool};
use crate::relay::SendReport;

verus! {

/// Why a submission was not turned into a message.
#[derive(Clone, Copy, Debug, PartialEq, Eq, Structural)]
pub enum PublishError {
    /// The submission has no content; nothing was signed or sent.
    EmptyContent,
    /// The fields admit no message identifier (a tag that does not parse).
    InvalidFields,
}

/// Checks a submission's content before any signing or sending.
pub fn validate_content(content: &str) -> (r: Result<(), PublishError>)
    ensures
        content@.len() == 0 <==> r == Err::<(), PublishError>(PublishError::EmptyContent),
        content@.len() > 0 <==> r is Ok,
{
    if content.is_empty() {
        Err(PublishError::EmptyContent)
    } else {
        Ok(())
    }
}

/// One identity and the relays it publishes to.
pub struct EventPublisher {
    pub identity: Identity,
    pub pool: RelayPool,
}

impl EventPublisher {
    pub open spec fn wf(&self) -> bool {
        self.identity.wf() && self.pool.wf()
    }

    pub fn new(identity: Identity, pool: RelayPool) -> (r: EventPublisher)
        requires
            identity.wf(),
            pool.wf(),
        ensures
            r.wf(),
            r.identity == identity,
            r.pool == pool,
    {
        EventPublisher { identity, pool }
    }

    /// Builds the message for a submission at time `created_at`: the author is
    /// this publisher's public key, the identifier is computed over the fields
    /// and signed. An empty content is refused before anything else happens;
    /// every other submission whose fields admit an identifier is published as
    /// a well-formed message.
    pub fn prepare(&self, content: &str, kind: u64, tags: Vec<Vec<String>>, created_at: u64) -> (r:
        Result<Message, PublishError>)
        requires
            self.wf(),
        ensures
            content@.len() == 0 ==> r == Err::<Message, PublishError>(PublishError::EmptyContent),
            content@.len() > 0 && event_id_of(
                self.identity.public_key_view(),
                created_at,
                kind,
                tags_view(tags@),
                content@,
            ) is None ==> r == Err::<Message, PublishError>(PublishError::InvalidFields),
            content@.len() > 0 && event_id_of(
                self.identity.public_key_view(),
                created_at,
                kind,
                tags_view(tags@),
                content@,
            ) is Some ==> r is Ok,
            r is Ok ==> {
                let m = r->Ok_0;
                &&& content@.len() > 0
                &&& m.author@ == self.identity.public_key_view()
                &&& m.created_at == created_at
                &&& m.kind == kind
                &&& m.tags@ == tags@
                &&& m.content@ == content@
                &&& event_id_of(m.author@, created_at, kind, tags_view(tags@), content@) == Some(
                    m.id@,
                )
                &&& m.sig@.len() == 64
                &&& well_formed(m)
            },
    {
        if let Err(e) = validate_content(content) {
            return Err(e);
        }
        let draft = Draft {
            author: self.identity.public_key(),
            created_at,
            kind,
            tags,
            content: content.to_owned(),
        };
        let id = match draft.compute_id() {
            Some(id) => id,
            None => return Err(PublishError::InvalidFields),
        };
        let sig = self.identity.sign(&id).unwrap();
        Ok(
            Message {
                id,
                author: draft.author,
                created_at,
                kind,
                tags: draft.tags,
                content: draft.content,
                sig,
            },
        )
    }

    /// Folds the reports of one broadcast of a prepared message into the
    /// outcome; see `RelayPool::record_broadcast`.
    pub fn complete(&mut self, reports: &Vec<Option<SendReport>>) -> (r: PublishOutcome)
        requires
            old(self).wf(),
            reports@.len() == old(self).pool@.len(),
        ensures
            final(self).wf(),
            final(self).identity == old(self).identity,
            final(self).pool@ == after_broadcast(old(self).pool@, reports@),
            r@.0 == outcome_entries(old(self).pool@, reports@),
            r@.1 == any_sent(r@.0),
    {
        self.pool.record_broadcast(reports)
    }
}

} // verus!
