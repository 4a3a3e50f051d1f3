use vstd::prelude::*;
use crate::message::{HttpError, Response};

verus! {

/// What the dispatcher does with a registration request.
#[derive(Clone, Copy, Debug, PartialEq, Eq, Structural)]
pub enum Registration {
    /// The handler is cached already: reply `Ok` without looking it up again.
    Known,
    /// The handler must be looked up among the guest's exports.
    Resolve,
}

/// The dispatcher's handler cache: handler names, each bound once to a
/// callable of type `H`. Entries are only ever added.
pub struct HandlerCache<H> {
    names: Vec<String>,
    handlers: Vec<H>,
}

impl<H> HandlerCache<H> {
    /// The cached handler names, in the order they were added.
    pub closed spec fn names(&self) -> Seq<Seq<char>> {
        self.names@.map_values(|n: String| n@)
    }

    /// The cached bindings, in the order of `names`.
    pub closed spec fn bindings(&self) -> Seq<H> {
        self.handlers@
    }

    pub closed spec fn wf(&self) -> bool {
        &&& self.names@.len() == self.handlers@.len()
        &&& self.names().no_duplicates()
    }

    /// The name has a cached binding.
    pub open spec fn contains(&self, name: Seq<char>) -> bool {
        self.names().contains(name)
    }

    /// Every entry of `earlier` is still in `self`, bound as it was.
    pub open spec fn extends(&self, earlier: &Self) -> bool {
        &&& earlier.names().len() <= self.names().len()
        &&& self.names().subrange(0, earlier.names().len() as int) == earlier.names()
        &&& self.bindings().subrange(0, earlier.bindings().len() as int) == earlier.bindings()
    }

    /// An empty cache.
    pub fn new() -> (r: Self)
        ensures
            r.wf(),
            r.names().len() == 0,
    {
        let r = HandlerCache { names: Vec::new(), handlers: Vec::new() };
        assert(r.names() =~= Seq::<Seq<char>>::empty());
        r
    }

    /// The position of the name in the cache, if it is there.
    pub fn position(&self, name: &str) -> (r: Option<usize>)
        requires
            self.wf(),
        ensures
            match r {
                Some(i) => i < self.names().len() && self.names()[i as int] == name@,
                None => !self.contains(name@),
            },
    {
        let target = name.to_owned();
        let mut i: usize = 0;
        while i < self.names.len()
            invariant
                self.wf(),
                target@ == name@,
                i <= self.names@.len(),
                forall|j: int| 0 <= j < i ==> self.names()[j] != name@,
            decreases self.names@.len() - i,
        {
            assert(self.names()[i as int] == self.names@[i as int]@);
            if self.names[i] == target {
                return Some(i);
            }
            i = i + 1;
        }
        None
    }

    /// Decides a registration request: a cached name is answered at once.
    pub fn registration(&self, name: &str) -> (r: Registration)
        requires
            self.wf(),
        ensures
            r == Registration::Known <==> self.contains(name@),
    {
        match self.position(name) {
            Some(_) => Registration::Known,
            None => Registration::Resolve,
        }
    }

    /// Records the outcome of looking a handler up among the guest's exports
    /// and gives the reply: a found handler is cached and acknowledged; a
    /// missing one leaves the cache as it was and is reported.
    pub fn record(&mut self, name: String, resolved: Result<H, String>) -> (r: Result<(), String>)
        requires
            old(self).wf(),
            !old(self).contains(name@),
        ensures
            final(self).wf(),
            final(self).extends(old(self)),
            match resolved {
                Ok(h) => {
                    &&& r is Ok
                    &&& final(self).names() == old(self).names().push(name@)
                    &&& final(self).bindings() == old(self).bindings().push(h)
                },
                Err(msg) => {
                    &&& r matches Err(m) && m@ == "Cannot find handler: "@ + msg@
                    &&& final(self).names() == old(self).names()
                    &&& final(self).bindings() == old(self).bindings()
                },
            },
    {
        match resolved {
            Ok(h) => {
                let ghost before = self.names();
                self.names.push(name);
                self.handlers.push(h);
                assert(self.names() =~= before.push(name@));
                assert(self.names().subrange(0, before.len() as int) =~= before);
                assert(self.bindings().subrange(0, old(self).bindings().len() as int)
                    =~= old(self).bindings());
                Ok(())
            },
            Err(msg) => {
                assert(self.names().subrange(0, self.names().len() as int) =~= self.names());
                assert(self.bindings().subrange(0, self.bindings().len() as int)
                    =~= self.bindings());
                Err(String::from_str("Cannot find handler: ").concat(msg.as_str()))
            },
        }
    }

    /// Looks up the binding of a handler to invoke; an unknown name is
    /// answered with status 400.
    pub fn lookup(&self, name: &str) -> (r: Result<&H, HttpError>)
        requires
            self.wf(),
        ensures
            match r {
                Ok(h) => exists|i: int|
                    0 <= i < self.names().len() && self.names()[i] == name@ && *h
                        == #[trigger] self.bindings()[i],
                Err(e) => e == HttpError::StatusError(400) && !self.contains(name@),
            },
    {
        match self.position(name) {
            Some(i) => {
                assert(self.bindings()[i as int] == self.handlers@[i as int]);
                Ok(&self.handlers[i])
            },
            None => Err(HttpError::StatusError(400)),
        }
    }
}

/// The reply to an invocation: what the guest returned, or status 500 when
/// the call trapped (`Err`, with the trap's description).
pub fn invocation_reply(outcome: Result<Result<Response, HttpError>, String>) -> (r: Result<
    Response,
    HttpError,
>)
    ensures
        match outcome {
            Ok(reply) => r == reply,
            Err(_) => r == Err::<Response, HttpError>(HttpError::StatusError(500)),
        },
{
    match outcome {
        Ok(reply) => reply,
        Err(_) => Err(HttpError::StatusError(500)),
    }
}

/// `after` is the cache `before` once the lookup of `name` came back as
/// `resolved`, and `reply` is the answer to the registration.
pub open spec fn recorded<H>(
    before: HandlerCache<H>,
    after: HandlerCache<H>,
    name: Seq<char>,
    resolved: Result<H, String>,
    reply: Result<(), String>,
) -> bool {
    match resolved {
        Ok(h) => {
            &&& reply is Ok
            &&& after.names() == before.names().push(name)
            &&& after.bindings() == before.bindings().push(h)
        },
        Err(msg) => {
            &&& reply matches Err(m) && m@ == "Cannot find handler: "@ + msg@
            &&& after.names() == before.names()
            &&& after.bindings() == before.bindings()
        },
    }
}

/// An operation taken off the dispatcher's channel: a request to register or
/// to invoke a handler, each with its single-use reply slot (`A` for a
/// registration, `B` for an invocation) and, for an invocation, the request
/// of type `R` handed to the guest.
pub enum OperationRequest<R, A, B> {
    RegisterHttpHandler { handler_name: String, tx: A },
    InvokeHttpHandler { handler_name: String, http_req: R, tx: B },
}

/// A reply, together with the reply slot of the operation it answers.
pub enum Answer<A, B> {
    Registered { tx: A, reply: Result<(), String> },
    Handled { tx: B, reply: Result<Response, HttpError> },
}

/// Where an operation stands once the dispatcher has looked at it: answered,
/// or waiting for one piece of work in the guest, with its reply slot.
pub enum Step<R, A, B> {
    /// The reply is known without entering the guest.
    Done(Answer<A, B>),
    /// The export must be looked up; finish with `finish_registration`.
    Resolve { handler_name: String, tx: A },
    /// The cached binding at `index` must be called; finish with
    /// `finish_invocation`.
    Call { index: usize, http_req: R, tx: B },
}

impl<H> HandlerCache<H> {
    /// The binding at position `index`.
    pub fn binding(&self, index: usize) -> (r: &H)
        requires
            self.wf(),
            index < self.names().len(),
        ensures
            *r == self.bindings()[index as int],
    {
        &self.handlers[index]
    }

    /// Takes an operation off the channel. A registration of a cached name
    /// is acknowledged at once, without a second lookup; an invocation of an
    /// unknown name is answered with status 400 without entering the guest.
    /// Anything else is handed back as the one piece of guest work still
    /// owed, carrying the operation's reply slot.
    pub fn begin<R, A, B>(&self, op: OperationRequest<R, A, B>) -> (r: Step<R, A, B>)
        requires
            self.wf(),
        ensures
            match op {
                OperationRequest::RegisterHttpHandler { handler_name, tx } => if self.contains(
                    handler_name@,
                ) {
                    r matches Step::Done(Answer::Registered { tx: t, reply }) && t == tx
                        && reply is Ok
                } else {
                    r matches Step::Resolve { handler_name: n, tx: t } && n == handler_name && t
                        == tx
                },
                OperationRequest::InvokeHttpHandler { handler_name, http_req, tx } => if self.contains(
                    handler_name@,
                ) {
                    r matches Step::Call { index, http_req: q, tx: t } && index < self.names().len()
                        && self.names()[index as int] == handler_name@ && q == http_req && t == tx
                } else {
                    r matches Step::Done(Answer::Handled { tx: t, reply }) && t == tx && reply
                        == Err::<Response, HttpError>(HttpError::StatusError(400))
                },
            },
    {
        match op {
            OperationRequest::RegisterHttpHandler { handler_name, tx } => {
                match self.registration(handler_name.as_str()) {
                    Registration::Known => Step::Done(Answer::Registered { tx, reply: Ok(()) }),
                    Registration::Resolve => Step::Resolve { handler_name, tx },
                }
            },
            OperationRequest::InvokeHttpHandler { handler_name, http_req, tx } => {
                match self.position(handler_name.as_str()) {
                    Some(index) => Step::Call { index, http_req, tx },
                    None => Step::Done(
                        Answer::Handled { tx, reply: Err(HttpError::StatusError(400)) },
                    ),
                }
            },
        }
    }

    /// Answers a registration once the export has been looked up: the
    /// outcome is recorded, and the reply goes to the operation's slot.
    pub fn finish_registration<A, B>(
        &mut self,
        handler_name: String,
        tx: A,
        resolved: Result<H, String>,
    ) -> (r: Answer<A, B>)
        requires
            old(self).wf(),
            !old(self).contains(handler_name@),
        ensures
            final(self).wf(),
            final(self).extends(old(self)),
            r matches Answer::Registered { tx: t, reply } && t == tx && recorded(
                *old(self),
                *final(self),
                handler_name@,
                resolved,
                reply,
            ),
    {
        let reply = self.record(handler_name, resolved);
        Answer::Registered { tx, reply }
    }
}

/// Answers an invocation once the guest has run: what it returned, or status
/// 500 for a trap, goes to the operation's slot.
pub fn finish_invocation<A, B>(tx: B, outcome: Result<Result<Response, HttpError>, String>) -> (r:
    Answer<A, B>)
    ensures
        r matches Answer::Handled { tx: t, reply } && t == tx && match outcome {
            Ok(res) => reply == res,
            Err(_) => reply == Err::<Response, HttpError>(HttpError::StatusError(500)),
        },
{
    Answer::Handled { tx, reply: invocation_reply(outcome) }
}

/// Once a registration has been acknowledged, every later request for the
/// same name is answered `Known`, without a second lookup, however the cache
/// has grown meanwhile.
pub proof fn lemma_registration_is_idempotent<H>(
    at_ack: HandlerCache<H>,
    later: HandlerCache<H>,
    name: Seq<char>,
)
    requires
        at_ack.contains(name),
        later.extends(&at_ack),
    ensures
        later.contains(name),
{
    let i = choose|i: int| 0 <= i < at_ack.names().len() && at_ack.names()[i] == name;
    assert(later.names().subrange(0, at_ack.names().len() as int)[i] == later.names()[i]);
}

/// The cache never shrinks: each name it held is still held.
pub proof fn lemma_cache_never_shrinks<H>(earlier: HandlerCache<H>, later: HandlerCache<H>)
    requires
        later.extends(&earlier),
    ensures
        later.names().len() >= earlier.names().len(),
        forall|n: Seq<char>| earlier.contains(n) ==> later.contains(n),
{
    assert forall|n: Seq<char>| earlier.contains(n) implies later.contains(n) by {
        lemma_registration_is_idempotent(earlier, later, n);
    }
}

} // verus!
