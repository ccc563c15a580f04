//! The error taxonomy: every component surfaces the most specific kind it
//! can determine, and a caller never receives a partially-populated entity
//! on failure.
use crate::json::{spec_get, Json};
use vstd::prelude::*;
use vstd::string::*;

verus! {

/// Which kind of entity a failed lookup was after.
#[derive(Debug, Clone, Copy, PartialEq, Eq, Structural)]
pub enum Types {
    Post,
    User,
}

impl Types {
    /// The noun this entity goes by in error messages.
    pub open spec fn spec_name(self) -> Seq<char> {
        match self {
            Types::Post => "post"@,
            Types::User => "user"@,
        }
    }

    /// The noun this entity goes by in error messages.
    pub fn name(&self) -> (r: String)
        ensures
            r@ == self.spec_name(),
    {
        match self {
            Types::Post => String::from_str("post"),
            Types::User => String::from_str("user"),
        }
    }
}

/// Error type for spools.
#[derive(Debug, Clone, PartialEq)]
pub enum SpoolsError {
    /// The requested entity does not exist, or a thread lookup failed to
    /// locate it.
    NotFound(Types),
    /// The JSON shape did not match expectations and no upstream `errors`
    /// array explains why.
    InvalidResponse,
    /// Upstream explicitly reported an error; the payload joins every
    /// reported summary.
    ResponseError(String),
    /// Transport-level failure, described by the transport's own text.
    RequestError(String),
    /// The transport client could not be built.
    ClientError,
    /// A thread item could not be decoded into a subpost.
    SubpostError,
}

/// The mathematical shadow of `SpoolsError`, with strings as sequences.
pub ghost enum ErrorV {
    NotFound(Types),
    InvalidResponse,
    ResponseError(Seq<char>),
    RequestError(Seq<char>),
    ClientError,
    SubpostError,
}

impl View for SpoolsError {
    type V = ErrorV;

    open spec fn view(&self) -> ErrorV {
        match self {
            SpoolsError::NotFound(t) => ErrorV::NotFound(*t),
            SpoolsError::InvalidResponse => ErrorV::InvalidResponse,
            SpoolsError::ResponseError(s) => ErrorV::ResponseError(s@),
            SpoolsError::RequestError(s) => ErrorV::RequestError(s@),
            SpoolsError::ClientError => ErrorV::ClientError,
            SpoolsError::SubpostError => ErrorV::SubpostError,
        }
    }
}

/// A `Result` seen through the views of both of its sides.
pub open spec fn result_view<T: View, E: View>(r: Result<T, E>) -> Result<T::V, E::V> {
    match r {
        Ok(v) => Ok(v.view()),
        Err(e) => Err(e.view()),
    }
}

/// The summary an upstream error entry exposes: its `summary` string when
/// present, else its `description` string, else nothing.
pub open spec fn spec_error_summary(e: Json) -> Seq<char> {
    match spec_get(e, "summary"@) {
        Some(Json::Str(s)) => s@,
        _ => match spec_get(e, "description"@) {
            Some(Json::Str(s)) => s@,
            _ => Seq::empty(),
        },
    }
}

/// Every entry's summary in order, each followed by a `;`.
pub open spec fn spec_join_summaries(errs: Seq<Json>) -> Seq<char>
    decreases errs.len(),
{
    if errs.len() == 0 {
        Seq::empty()
    } else {
        spec_join_summaries(errs.drop_last()) + spec_error_summary(errs.last()) + ";"@
    }
}

/// The most specific error a rejected document explains: `ResponseError`
/// when it carries a top-level `errors` array, else `InvalidResponse`.
pub open spec fn spec_deserialize_error(doc: Json) -> ErrorV {
    match spec_get(doc, "errors"@) {
        Some(Json::Arr(errs)) => ErrorV::ResponseError(spec_join_summaries(errs@)),
        _ => ErrorV::InvalidResponse,
    }
}

impl SpoolsError {
    /// Turn a document that did not hold the expected data into the most
    /// specific error it explains: a top-level `errors` array becomes
    /// `ResponseError` with every entry's summary joined, `;`-terminated;
    /// anything else is `InvalidResponse`.
    pub fn deserialize_error(response: &Json) -> (r: SpoolsError)
        ensures
            r@ == spec_deserialize_error(*response),
    {
        match response.get("errors") {
            Some(v) => match v {
                Json::Arr(errs) => {
                    let n = errs.len();
                    let mut out = String::new();
                    let mut i: usize = 0;
                    proof {
                        assert(errs@.take(0) =~= Seq::<Json>::empty());
                    }
                    while i < n
                        invariant
                            n == errs@.len(),
                            i <= n,
                            out@ == spec_join_summaries(errs@.take(i as int)),
                        decreases n - i,
                    {
                        let summary = match errs[i].get("summary") {
                            Some(Json::Str(s)) => s.clone(),
                            _ => match errs[i].get("description") {
                                Some(Json::Str(s)) => s.clone(),
                                _ => String::new(),
                            },
                        };
                        proof {
                            assert(errs@.take(i + 1).drop_last() =~= errs@.take(i as int));
                            assert(errs@.take(i + 1).last() == errs@[i as int]);
                            assert(summary@ == spec_error_summary(errs@[i as int]));
                        }
                        out.append(summary.as_str());
                        out.append(";");
                        i += 1;
                    }
                    proof {
                        assert(errs@.take(n as int) =~= errs@);
                    }
                    SpoolsError::ResponseError(out)
                },
                _ => SpoolsError::InvalidResponse,
            },
            None => SpoolsError::InvalidResponse,
        }
    }

    /// A human-readable description of the failure.
    pub open spec fn spec_message(self) -> Seq<char> {
        match self@ {
            ErrorV::NotFound(t) => t.spec_name() + " not found"@,
            ErrorV::InvalidResponse => "endpoint returned invalid response"@,
            ErrorV::ResponseError(s) => "endpoint returned the following errors: "@ + s,
            ErrorV::RequestError(s) => "unable to fetch request: "@ + s,
            ErrorV::ClientError => "couldn't build client"@,
            ErrorV::SubpostError => "couldn't build subpost"@,
        }
    }

    /// A human-readable description of the failure.
    pub fn message(&self) -> (r: String)
        ensures
            r@ == self.spec_message(),
    {
        match self {
            SpoolsError::NotFound(t) => t.name().concat(" not found"),
            SpoolsError::InvalidResponse => String::from_str(
                "endpoint returned invalid response",
            ),
            SpoolsError::ResponseError(s) => String::from_str(
                "endpoint returned the following errors: ",
            ).concat(s.as_str()),
            SpoolsError::RequestError(s) => String::from_str("unable to fetch request: ").concat(
                s.as_str(),
            ),
            SpoolsError::ClientError => String::from_str("couldn't build client"),
            SpoolsError::SubpostError => String::from_str("couldn't build subpost"),
        }
    }
}

} // verus!
