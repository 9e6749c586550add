//! The command builder: a procedure name and an ordered parameter list
//! rendered as one `DECLARE` / `EXEC` / `SELECT` batch, plus the positional
//! bindings in the same order.
//!
//! The trailing `SELECT` re-emits the two output parameters, so the status
//! footer is always the last row of the stream, however many rows the
//! procedure itself returns.  The `@name = literal` list in the text carries
//! the values for readability; value transmission is the positional binding
//! sequence, which must follow the input order.

use vstd::prelude::*;

use crate::db::{query_binds, query_new, query_sql};
use crate::model::{spec_literal, ParamData, SqlParam};

verus! {

/// The spec-level reading of a named parameter list: each name with the value
/// it carries, in order.
pub open spec fn spec_params_data(params: Seq<(&str, SqlParam)>) -> Seq<(Seq<char>, ParamData)> {
    params.map_values(|p: (&str, SqlParam)| (p.0@, p.1@))
}

/// The values of a named parameter list, in order: the positional binding
/// sequence the builder owes the client.
pub open spec fn spec_params_values(params: Seq<(&str, SqlParam)>) -> Seq<ParamData> {
    params.map_values(|p: (&str, SqlParam)| p.1@)
}

/// One `@name = literal` fragment of the parameter list.
pub open spec fn spec_param_fragment(name: Seq<char>, p: ParamData) -> Seq<char> {
    "@"@ + name + " = "@ + spec_literal(p)
}

/// The parameter fragments joined with `, `.
pub open spec fn spec_param_list(params: Seq<(Seq<char>, ParamData)>) -> Seq<char>
    decreases params.len(),
{
    if params.len() == 0 {
        Seq::empty()
    } else if params.len() == 1 {
        spec_param_fragment(params[0].0, params[0].1)
    } else {
        spec_param_list(params.drop_last()) + ", "@ + spec_param_fragment(
            params.last().0,
            params.last().1,
        )
    }
}

/// The full batch: declare the two output locals, execute the procedure with
/// the rendered parameter list and the output bindings, then select the
/// outputs back so the footer row closes the stream.
pub open spec fn spec_batch(sp_name: Seq<char>, params: Seq<(Seq<char>, ParamData)>) -> Seq<char> {
    "DECLARE @status BIT, @msg VARCHAR(1000); EXEC "@ + sp_name + " "@ + spec_param_list(params)
        + ", @retStatus = @status OUTPUT, @retMessage = @msg OUTPUT; SELECT @status AS retStatus, @msg AS retMessage;"@
}

/// Renders the command text for one invocation.
pub fn build_sp_batch(sp_name: &str, params: &[(&str, SqlParam)]) -> (r: String)
    ensures
        r@ == spec_batch(sp_name@, spec_params_data(params@)),
{
    let ghost m = spec_params_data(params@);
    let mut list = String::new();
    let mut i: usize = 0;
    while i < params.len()
        invariant
            i <= params@.len(),
            m == spec_params_data(params@),
            m.len() == params@.len(),
            list@ == spec_param_list(m.subrange(0, i as int)),
        decreases params@.len() - i,
    {
        if i > 0 {
            list.append(", ");
        }
        list.append("@");
        list.append(params[i].0);
        list.append(" = ");
        let lit = params[i].1.render_literal();
        list.append(lit.as_str());
        proof {
            let pre = m.subrange(0, i as int);
            let cur = m.subrange(0, i + 1 as int);
            assert(cur.drop_last() =~= pre);
            assert(cur.last() == m[i as int]);
            if i == 0 {
                assert(list@ =~= spec_param_list(cur));
            } else {
                assert(list@ =~= spec_param_list(cur));
            }
        }
        i += 1;
    }
    proof {
        assert(m.subrange(0, m.len() as int) =~= m);
    }
    let mut out = String::new();
    out.append("DECLARE @status BIT, @msg VARCHAR(1000); EXEC ");
    out.append(sp_name);
    out.append(" ");
    out.append(list.as_str());
    out.append(
        ", @retStatus = @status OUTPUT, @retMessage = @msg OUTPUT; SELECT @status AS retStatus, @msg AS retMessage;",
    );
    assert(out@ =~= spec_batch(sp_name@, m));
    out
}

/// Binds every parameter value onto the query, in input order.
pub fn bind_params<'a>(query: &mut tiberius::Query<'a>, params: &'a [(&'a str, SqlParam)])
    ensures
        query_sql(*final(query)) == query_sql(*old(query)),
        query_binds(*final(query)) == query_binds(*old(query)) + spec_params_values(params@),
{
    let ghost binds0 = query_binds(*query);
    let ghost vals = spec_params_values(params@);
    let mut i: usize = 0;
    while i < params.len()
        invariant
            i <= params@.len(),
            vals == spec_params_values(params@),
            vals.len() == params@.len(),
            query_sql(*query) == query_sql(*old(query)),
            query_binds(*query) == binds0 + vals.subrange(0, i as int),
        decreases params@.len() - i,
    {
        params[i].1.bind_to_query(query);
        proof {
            assert(vals.subrange(0, i + 1 as int) =~= vals.subrange(0, i as int).push(
                params@[i as int].1@,
            ));
            assert(binds0 + vals.subrange(0, i + 1 as int) =~= (binds0 + vals.subrange(
                0,
                i as int,
            )).push(params@[i as int].1@));
        }
        i += 1;
    }
    proof {
        assert(vals.subrange(0, vals.len() as int) =~= vals);
    }
}

/// Builds the command text and binds the values: the query object that one
/// invocation submits to the client.
pub fn prepare_sp_query<'a>(sp_name: &str, params: &'a [(&'a str, SqlParam)]) -> (q: tiberius::Query<
    'a,
>)
    ensures
        query_sql(q) == spec_batch(sp_name@, spec_params_data(params@)),
        query_binds(q) == spec_params_values(params@),
{
    let text = build_sp_batch(sp_name, params);
    let mut q: tiberius::Query<'a> = query_new(text);
    bind_params(&mut q, params);
    proof {
        assert(Seq::<ParamData>::empty() + spec_params_values(params@) =~= spec_params_values(
            params@,
        ));
    }
    q
}

/// Law: the positional binding sequence of a parameter list has one entry per
/// parameter and keeps the input order.
pub proof fn lemma_binding_order(params: Seq<(&str, SqlParam)>)
    ensures
        spec_params_values(params).len() == params.len(),
        forall|i: int|
            0 <= i < params.len() ==> spec_params_values(params)[i] == #[trigger] params[i].1@,
{
}

} // verus!
