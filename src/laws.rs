//! Properties that relate preparation, execution and the backend's replies.
use crate::c_text::terminated;
use crate::error::{reply_outcome, BackendReply, StatementError};
use crate::statement::{
    execute_call, prepare_call, prepare_outcome, statement_of, valid_identifiers, ParamPointer,
    PrepareCall,
};
use crate::c_text::has_nul;
use vstd::prelude::*;

verus! {

/// Preparing SQL text and a name without embedded null bytes succeeds; once
/// the backend accepts the prepare call, an execution with one value per declared type makes a call whose parameter
/// count is the statement's number of format tags, and an accepted execution
/// yields the backend's result handle.
pub proof fn prepare_then_execute<R>(
    sql: Seq<u8>,
    name: Seq<u8>,
    types: Seq<u32>,
    params: Seq<Option<Seq<u8>>>,
    handle: R,
)
    requires
        valid_identifiers(sql, name),
        params.len() == types.len(),
    ensures
        prepare_outcome(sql, name, types) == Ok::<PrepareCall, StatementError>(
            prepare_call(sql, name, types),
        ),
        ({
            let s = statement_of(prepare_call(sql, name, types));
            let call = execute_call(s, params);
            &&& call.param_count == s.parameter_formats.len()
            &&& call.name == terminated(name)
            &&& call.parameter_formats == s.parameter_formats
        }),
        reply_outcome(BackendReply::Accepted(handle)) == Ok::<R, StatementError>(handle),
{
}

/// A name or an SQL text with an embedded null byte makes preparation fail
/// with `InvalidIdentifier`, so that no prepare call is ever made for it.
pub proof fn embedded_null_is_rejected(sql: Seq<u8>, name: Seq<u8>, types: Seq<u32>)
    requires
        has_nul(sql) || has_nul(name),
    ensures
        prepare_outcome(sql, name, types) == Err::<PrepareCall, StatementError>(
            StatementError::InvalidIdentifier,
        ),
{
}

/// A prepared statement carries exactly one format tag per declared parameter
/// type, all binary, whatever the types are.
pub proof fn formats_follow_declared_types(sql: Seq<u8>, name: Seq<u8>, types: Seq<u32>)
    ensures
        statement_of(prepare_call(sql, name, types)).parameter_formats.len() == types.len(),
        forall|i: int|
            0 <= i < types.len() ==> #[trigger] statement_of(
                prepare_call(sql, name, types),
            ).parameter_formats[i] == crate::statement::BINARY_FORMAT,
{
}

/// An absent value goes as a null pointer of length zero; a present but empty
/// buffer goes as a pointer to its start, also of length zero: the two stay
/// distinct.
pub proof fn absent_differs_from_empty(
    s: crate::statement::StatementView,
    params: Seq<Option<Seq<u8>>>,
    i: int,
    j: int,
)
    requires
        0 <= i < params.len(),
        0 <= j < params.len(),
        params[i] is None,
        params[j] == Some(Seq::<u8>::empty()),
    ensures
        execute_call(s, params).pointers[i] == ParamPointer::Null,
        execute_call(s, params).lengths[i] == 0,
        execute_call(s, params).pointers[j] == ParamPointer::BufferStart(j as usize),
        execute_call(s, params).lengths[j] == 0,
        execute_call(s, params).pointers[i] != execute_call(s, params).pointers[j],
{
}

/// Executing a statement twice uses the same name and format tags both times,
/// and each call's pointers and lengths follow from its own values alone.
pub proof fn executions_are_independent(
    s: crate::statement::StatementView,
    first: Seq<Option<Seq<u8>>>,
    second: Seq<Option<Seq<u8>>>,
)
    ensures
        execute_call(s, first).name == execute_call(s, second).name,
        execute_call(s, first).parameter_formats == execute_call(s, second).parameter_formats,
        first == second ==> execute_call(s, first) == execute_call(s, second),
{
}

/// Preparing one SQL text under two different names gives equal fingerprints
/// and different statement names.
pub proof fn same_sql_under_two_names(
    sql: Seq<u8>,
    first: Seq<u8>,
    second: Seq<u8>,
    first_types: Seq<u32>,
    second_types: Seq<u32>,
)
    requires
        first != second,
    ensures
        statement_of(prepare_call(sql, first, first_types)).fingerprint == statement_of(
            prepare_call(sql, second, second_types),
        ).fingerprint,
        statement_of(prepare_call(sql, first, first_types)).name != statement_of(
            prepare_call(sql, second, second_types),
        ).name,
{
    assert(terminated(first).drop_last() =~= first);
    assert(terminated(second).drop_last() =~= second);
}

/// With no declared parameter types the prepare call passes no type-id array
/// (a null pointer), and the statement has no format tags.
pub proof fn no_parameters(sql: Seq<u8>, name: Seq<u8>)
    ensures
        prepare_call(sql, name, Seq::empty()).param_count == 0,
        prepare_call(sql, name, Seq::empty()).param_type_ids is None,
        statement_of(prepare_call(sql, name, Seq::empty())).parameter_formats.len() == 0,
{
}

} // verus!
