//! Dispatch of wRPC requests to the handlers registered for an
//! (instance, function) pair.

use vstd::prelude::*;
use crate::message::{ResponseModel, WrpcRequest, WrpcResponse, WrpcStatus, NOT_FOUND_MESSAGE, WRPC_VERSION};
use vstd::utf8::encode_utf8;
use crate::text::same_text;

verus! {

/// The key under which an entry is registered.
pub open spec fn entry_key<H>(e: (String, String, H)) -> (Seq<char>, Seq<char>) {
    (e.0@, e.1@)
}

/// No two entries share a key.
pub open spec fn keys_unique<H>(s: Seq<(String, String, H)>) -> bool {
    forall|i: int, j: int|
        0 <= i < s.len() && 0 <= j < s.len() && i != j ==> entry_key(#[trigger] s[i])
            != entry_key(#[trigger] s[j])
}

/// The handlers of a sequence of entries, by key.
pub open spec fn routes_of<H>(s: Seq<(String, String, H)>) -> Map<(Seq<char>, Seq<char>), H> {
    Map::new(
        |k: (Seq<char>, Seq<char>)| exists|i: int| 0 <= i < s.len() && entry_key(s[i]) == k,
        |k: (Seq<char>, Seq<char>)|
            s[choose|i: int| 0 <= i < s.len() && entry_key(s[i]) == k].2,
    )
}

/// Router for dispatching wRPC requests to handlers. `H` is the type of a
/// handler; the router decides which handler a request goes to.
pub struct WrpcRouter<H> {
    handlers: Vec<(String, String, H)>,
}

impl<H> WrpcRouter<H> {
    #[verifier::type_invariant]
    spec fn keys_are_unique(self) -> bool {
        keys_unique(self.handlers@)
    }

    /// The registered handlers, by (instance, function).
    pub closed spec fn routes(&self) -> Map<(Seq<char>, Seq<char>), H> {
        routes_of(self.handlers@)
    }

    /// Create a new router
    pub fn new() -> (r: Self)
        ensures
            r.routes() == Map::<(Seq<char>, Seq<char>), H>::empty(),
    {
        let r = WrpcRouter { handlers: Vec::new() };
        assert(r.routes() =~= Map::<(Seq<char>, Seq<char>), H>::empty());
        r
    }

    /// The position of the entry with the given key, if there is one.
    fn position(handlers: &Vec<(String, String, H)>, instance: &str, function: &str) -> (r:
        Option<usize>)
        ensures
            r matches Some(i) ==> i < handlers.len() && entry_key(handlers@[i as int]) == (
                instance@,
                function@,
            ),
            r is None ==> forall|i: int|
                0 <= i < handlers.len() ==> entry_key(#[trigger] handlers@[i]) != (
                    instance@,
                    function@,
                ),
    {
        let mut i: usize = 0;
        while i < handlers.len()
            invariant
                i <= handlers.len(),
                forall|j: int|
                    0 <= j < i ==> entry_key(#[trigger] handlers@[j]) != (instance@, function@),
            decreases handlers.len() - i,
        {
            let e = &handlers[i];
            if same_text(e.0.as_str(), instance) && same_text(e.1.as_str(), function) {
                return Some(i);
            }
            i = i + 1;
        }
        None
    }

    /// Register a handler for a specific instance/function pair; a handler
    /// registered before for the same pair is replaced.
    pub fn register(&mut self, instance: &str, function: &str, handler: H)
        ensures
            final(self).routes() == old(self).routes().insert((instance@, function@), handler),
    {
        proof {
            use_type_invariant(&*self);
        }
        let ghost old_s = self.handlers@;
        let ghost key = (instance@, function@);
        let mut hs: Vec<(String, String, H)> = Vec::new();
        std::mem::swap(&mut hs, &mut self.handlers);
        assert(hs@ == old_s);
        match Self::position(&hs, instance, function) {
            Some(j) => {
                hs.set(j, (String::from_str(instance), String::from_str(function), handler));
                proof {
                    assert forall|a: int, b: int|
                        0 <= a < hs@.len() && 0 <= b < hs@.len() && a != b implies entry_key(
                        #[trigger] hs@[a],
                    ) != entry_key(#[trigger] hs@[b]) by {
                        assert(entry_key(hs@[a]) == entry_key(old_s[a]));
                        assert(entry_key(hs@[b]) == entry_key(old_s[b]));
                    }
                    assert forall|k: (Seq<char>, Seq<char>)|
                        routes_of(hs@).dom().contains(k) <==> routes_of(old_s).insert(
                            key,
                            handler,
                        ).dom().contains(k) by {
                        if routes_of(old_s).dom().contains(k) {
                            let i = choose|i: int| 0 <= i < old_s.len() && entry_key(old_s[i]) == k;
                            assert(entry_key(hs@[i]) == k);
                        }
                        if routes_of(hs@).dom().contains(k) {
                            let i = choose|i: int| 0 <= i < hs@.len() && entry_key(hs@[i]) == k;
                            assert(entry_key(old_s[i]) == k);
                        }
                        if k == key {
                            assert(entry_key(hs@[j as int]) == k);
                        }
                    }
                    assert forall|k: (Seq<char>, Seq<char>)|
                        #[trigger] routes_of(hs@).dom().contains(k) implies routes_of(hs@)[k]
                        == routes_of(old_s).insert(key, handler)[k] by {
                        let i = choose|i: int| 0 <= i < hs@.len() && entry_key(hs@[i]) == k;
                        if k == key {
                            assert(i == j);
                        } else {
                            assert(entry_key(old_s[i]) == k);
                            let i2 = choose|i2: int|
                                0 <= i2 < old_s.len() && entry_key(old_s[i2]) == k;
                            assert(i2 == i);
                        }
                    }
                    assert(routes_of(hs@) =~= routes_of(old_s).insert(key, handler));
                }
            },
            None => {
                hs.push((String::from_str(instance), String::from_str(function), handler));
                proof {
                    let n = old_s.len() as int;
                    assert forall|a: int, b: int|
                        0 <= a < hs@.len() && 0 <= b < hs@.len() && a != b implies entry_key(
                        #[trigger] hs@[a],
                    ) != entry_key(#[trigger] hs@[b]) by {
                        if a < n && b < n {
                            assert(hs@[a] == old_s[a]);
                            assert(hs@[b] == old_s[b]);
                        } else if a < n {
                            assert(hs@[a] == old_s[a]);
                        } else {
                            assert(hs@[b] == old_s[b]);
                        }
                    }
                    assert forall|k: (Seq<char>, Seq<char>)|
                        routes_of(hs@).dom().contains(k) <==> routes_of(old_s).insert(
                            key,
                            handler,
                        ).dom().contains(k) by {
                        if routes_of(old_s).dom().contains(k) {
                            let i = choose|i: int| 0 <= i < old_s.len() && entry_key(old_s[i]) == k;
                            assert(hs@[i] == old_s[i]);
                        }
                        if routes_of(hs@).dom().contains(k) {
                            let i = choose|i: int| 0 <= i < hs@.len() && entry_key(hs@[i]) == k;
                            if i < n {
                                assert(hs@[i] == old_s[i]);
                            }
                        }
                        if k == key {
                            assert(entry_key(hs@[n]) == k);
                        }
                    }
                    assert forall|k: (Seq<char>, Seq<char>)|
                        #[trigger] routes_of(hs@).dom().contains(k) implies routes_of(hs@)[k]
                        == routes_of(old_s).insert(key, handler)[k] by {
                        let i = choose|i: int| 0 <= i < hs@.len() && entry_key(hs@[i]) == k;
                        if k == key {
                            if i < n {
                                assert(hs@[i] == old_s[i]);
                            }
                            assert(i == n);
                        } else {
                            assert(i < n);
                            assert(hs@[i] == old_s[i]);
                            let i2 = choose|i2: int|
                                0 <= i2 < old_s.len() && entry_key(old_s[i2]) == k;
                            assert(hs@[i2] == old_s[i2]);
                            assert(i2 == i);
                        }
                    }
                    assert(routes_of(hs@) =~= routes_of(old_s).insert(key, handler));
                }
            },
        }
        self.handlers = hs;
    }

    /// The handler registered for the given instance/function pair, if any.
    pub fn lookup(&self, instance: &str, function: &str) -> (r: Option<&H>)
        ensures
            r matches Some(h) ==> self.routes().dom().contains((instance@, function@)) && *h
                == self.routes()[(instance@, function@)],
            r is None ==> !self.routes().dom().contains((instance@, function@)),
    {
        proof {
            use_type_invariant(self);
        }
        match Self::position(&self.handlers, instance, function) {
            Some(i) => {
                proof {
                    let k = (instance@, function@);
                    let i2 = choose|i2: int|
                        0 <= i2 < self.handlers@.len() && entry_key(self.handlers@[i2]) == k;
                    assert(i2 == i);
                }
                Some(&self.handlers[i].2)
            },
            None => None,
        }
    }

    /// The handler that a request goes to: the one registered for its
    /// instance and function, if any (a request with none is answered with
    /// `WrpcResponse::not_found()`).
    pub fn route(&self, request: &WrpcRequest) -> (r: Option<&H>)
        ensures
            r matches Some(h) ==> self.routes().dom().contains(
                (request.instance@, request.function@),
            ) && *h == self.routes()[(request.instance@, request.function@)],
            r is None ==> !self.routes().dom().contains((request.instance@, request.function@)),
    {
        self.lookup(request.instance.as_str(), request.function.as_str())
    }

    /// Where a request goes: the handler registered for its instance and
    /// function, or, when there is none, the not-found answer.
    pub fn dispatch(&self, request: &WrpcRequest) -> (r: Result<&H, WrpcResponse>)
        ensures
            match r {
                Ok(h) => self.routes().dom().contains((request.instance@, request.function@)) && *h
                    == self.routes()[(request.instance@, request.function@)],
                Err(resp) => !self.routes().dom().contains((request.instance@, request.function@))
                    && resp@ == (ResponseModel {
                    status: WrpcStatus::NotFound,
                    data: encode_utf8(NOT_FOUND_MESSAGE@),
                    version: WRPC_VERSION@,
                }),
            },
    {
        match self.route(request) {
            Some(h) => Ok(h),
            None => Err(WrpcResponse::not_found()),
        }
    }
}

impl<H> Default for WrpcRouter<H> {
    fn default() -> (r: Self)
        ensures
            r.routes() == Map::<(Seq<char>, Seq<char>), H>::empty(),
    {
        Self::new()
    }
}

} // verus!
