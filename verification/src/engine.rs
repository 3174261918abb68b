//! The foreign routing gateway's request/reply protocol.
//!
//! The engine itself is an opaque, externally built library behind a
//! foreign-call boundary; the embedding program loads it and performs
//! the blocking call.  This module owns the two decisions around that
//! call: whether a configuration path can be handed to the loader at
//! all, and what a raw reply amounts to.  A nonzero status means the
//! engine produced no output buffers, so nothing may be taken from
//! the reply in that case.

use vstd::prelude::*;

use crate::errors::RouteError;

verus! {

/// The raw outcome of one foreign `findPath` call: the status code
/// and, on status 0, the two buffers whose ownership the engine
/// transferred to the caller.
#[derive(Debug, Clone, PartialEq)]
pub struct EngineReply {
    /// The engine's status code; 0 is success.
    pub status: i32,
    /// The engine-assigned route id, present exactly on status 0.
    pub route_id: Option<String>,
    /// The serialized path, present exactly on status 0.
    pub payload: Option<String>,
}

/// A configuration path the engine loader's C interface can take: it
/// carries no NUL character.
pub open spec fn spec_config_path_ok(s: Seq<char>) -> bool {
    forall|i: int| 0 <= i < s.len() ==> (#[trigger] s[i]) != '\u{0}'
}

/// The gateway to the foreign routing engine.
#[derive(Debug)]
pub struct RouteWrapper {}

impl RouteWrapper {
    /// Checks the configuration path handed to the engine loader:
    /// returns 0 exactly when the loader's C interface can take it.
    /// Must run once per process before any path computation; a
    /// nonzero status is fatal.
    pub fn init(rout_config_path: String) -> (r: i32)
        ensures
            r == 0 <==> spec_config_path_ok(rout_config_path@),
            r == 0 || r == 1,
    {
        let s = rout_config_path.as_str();
        let n = s.unicode_len();
        let mut i: usize = 0;
        while i < n
            invariant
                0 <= i <= n,
                n == s@.len(),
                s@ == rout_config_path@,
                forall|j: int| 0 <= j < i ==> (#[trigger] s@[j]) != '\u{0}',
            decreases n - i,
        {
            if s.get_char(i) == '\u{0}' {
                proof {
                    assert(!spec_config_path_ok(rout_config_path@)) by {
                        assert(rout_config_path@[i as int] == '\u{0}');
                    }
                }
                return 1;
            }
            i = i + 1;
        }
        0
    }

    /// What a raw engine reply amounts to.  A nonzero status carries
    /// no buffers and surfaces as `RouteError` with that code; status
    /// 0 hands both buffers to the caller, exactly once.
    pub fn find_path(reply: EngineReply) -> (r: Result<(String, String), RouteError>)
        requires
            reply.status == 0 ==> reply.route_id is Some && reply.payload is Some,
        ensures
            reply.status != 0 ==> r == Result::<(String, String), RouteError>::Err(
                RouteError { code: reply.status },
            ),
            reply.status == 0 ==> match r {
                Result::Ok((id, payload)) => id@ == reply.route_id->Some_0@ && payload@
                    == reply.payload->Some_0@,
                Result::Err(_) => false,
            },
    {
        if reply.status != 0 {
            return Result::Err(RouteError { code: reply.status });
        }
        let id = match reply.route_id {
            Option::Some(s) => s,
            Option::None => {
                proof {
                    assert(false);
                }
                String::new()
            },
        };
        let payload = match reply.payload {
            Option::Some(s) => s,
            Option::None => {
                proof {
                    assert(false);
                }
                String::new()
            },
        };
        Result::Ok((id, payload))
    }
}

} // verus!
