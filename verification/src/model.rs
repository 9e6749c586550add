//! Typed parameter values for a stored-procedure call.

use vstd::prelude::*;

use crate::db::{query_bind_i64, query_bind_text, query_binds, query_sql};
use crate::numeric::{i64_to_dec, spec_int_dec};

verus! {

/// The mathematical value of one parameter: the text or the integer it
/// carries.
pub enum ParamData {
    Text(Seq<char>),
    Int(i64),
}

/// One typed value handed to a stored procedure.  Each variant knows how to
/// write itself as a literal for the command text and how to bind itself as
/// the next positional parameter on the client's query object.
#[derive(Clone)]
pub enum SqlParam {
    String(String),
    I64(i64),
}

impl View for SqlParam {
    type V = ParamData;

    open spec fn view(&self) -> ParamData {
        match self {
            SqlParam::String(s) => ParamData::Text(s@),
            SqlParam::I64(i) => ParamData::Int(*i),
        }
    }
}

/// How a parameter value is written as a literal inside the command text:
/// text between single quotes, exactly as given, and integers in decimal.
///
/// The text is not escaped before it is quoted.  That keeps the rendering the
/// callers see, but it lets a value holding a quote break out of the literal:
/// callers must not pass untrusted text.
pub open spec fn spec_literal(p: ParamData) -> Seq<char> {
    match p {
        ParamData::Text(s) => seq!['\''] + s + seq!['\''],
        ParamData::Int(i) => spec_int_dec(i as int),
    }
}

impl SqlParam {
    /// Writes this value as a literal for the command text.
    pub fn render_literal(&self) -> (r: String)
        ensures
            r@ == spec_literal(self@),
    {
        match self {
            SqlParam::String(s) => {
                proof {
                    reveal_strlit("'");
                }
                let mut out = String::new();
                out.append("'");
                out.append(s.as_str());
                out.append("'");
                assert(out@ =~= spec_literal(self@));
                out
            },
            SqlParam::I64(i) => i64_to_dec(*i),
        }
    }

    /// Binds this value as the next positional parameter of the query.
    pub fn bind_to_query<'a>(&'a self, query: &mut tiberius::Query<'a>)
        ensures
            query_sql(*final(query)) == query_sql(*old(query)),
            query_binds(*final(query)) == query_binds(*old(query)).push(self@),
    {
        match self {
            SqlParam::String(s) => query_bind_text(query, s.as_str()),
            SqlParam::I64(i) => query_bind_i64(query, *i),
        }
    }
}

/// The token returned by the identity provider; only the access token itself
/// is read.
pub struct TokenResponse {
    pub access_token: String,
}

} // verus!
