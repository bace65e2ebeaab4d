use crate::c_text::{has_nul, terminated, CText};
use crate::error::{accept_reply, reply_outcome, BackendReply, StatementError};
use crate::fingerprint::{fingerprint_text, sql_fingerprint};
use vstd::prelude::*;
use vstd::string::StringSliceAdditionalSpecFns;

verus! {

/// The format tag for binary-encoded parameters and results; the only format
/// this library asks for.
pub const BINARY_FORMAT: i32 = 1;

/// Where the pointer for one parameter points in an execute-prepared call.
#[derive(Debug, Clone, Copy, PartialEq, Eq, Structural)]
pub enum ParamPointer {
    /// A null pointer: the parameter is SQL NULL.
    Null,
    /// The first byte of the parameter buffer at this index.
    BufferStart(usize),
}

/// The prepare call, as a mathematical value.
pub ghost struct PrepareCall {
    pub name: Seq<u8>,
    pub sql: Seq<u8>,
    pub fingerprint: Seq<char>,
    pub param_count: int,
    pub param_type_ids: Option<Seq<u32>>,
}

/// A prepared statement, as a mathematical value.
pub ghost struct StatementView {
    pub name: Seq<u8>,
    pub fingerprint: Seq<char>,
    pub parameter_formats: Seq<i32>,
}

/// The execute-prepared call, as a mathematical value.
pub ghost struct ExecuteCall {
    pub name: Seq<u8>,
    pub parameter_formats: Seq<i32>,
    pub param_count: int,
    pub pointers: Seq<ParamPointer>,
    pub lengths: Seq<i32>,
    pub result_format: i32,
}

/// The bytes of a statement name; an absent name is the empty one, which the
/// backend reads as the unnamed statement.
pub open spec fn name_bytes(name: Option<&str>) -> Seq<u8> {
    match name {
        Some(n) => n.spec_bytes(),
        None => Seq::empty(),
    }
}

/// Whether `prepare` accepts this SQL text and statement name.
pub open spec fn valid_identifiers(sql: Seq<u8>, name: Seq<u8>) -> bool {
    !has_nul(sql) && !has_nul(name)
}

/// The prepare call made for SQL text `sql`, name `name` and declared
/// parameter types `types`: the type ids go as an array, or as a null pointer
/// when there are none.
pub open spec fn prepare_call(sql: Seq<u8>, name: Seq<u8>, types: Seq<u32>) -> PrepareCall {
    PrepareCall {
        name: terminated(name),
        sql: terminated(sql),
        fingerprint: fingerprint_text(sql),
        param_count: types.len() as int,
        param_type_ids: if types.len() == 0 { None } else { Some(types) },
    }
}

/// What `prepare` yields: the call's arguments when the name and the text are
/// valid, else `InvalidIdentifier`.
pub open spec fn prepare_outcome(sql: Seq<u8>, name: Seq<u8>, types: Seq<u32>) -> Result<
    PrepareCall,
    StatementError,
> {
    if valid_identifiers(sql, name) {
        Ok(prepare_call(sql, name, types))
    } else {
        Err(StatementError::InvalidIdentifier)
    }
}

/// One binary format tag per declared parameter.
pub open spec fn binary_formats(n: int) -> Seq<i32> {
    Seq::new(n as nat, |i: int| BINARY_FORMAT)
}

/// The statement that a successful prepare call yields.
pub open spec fn statement_of(call: PrepareCall) -> StatementView {
    StatementView {
        name: call.name,
        fingerprint: call.fingerprint,
        parameter_formats: binary_formats(call.param_count),
    }
}

/// The parameter values, each absent or a byte buffer.
pub open spec fn buffers(data: Seq<Option<Vec<u8>>>) -> Seq<Option<Seq<u8>>> {
    Seq::new(
        data.len(),
        |i: int|
            match data[i] {
                Some(b) => Some(b@),
                None => None,
            },
    )
}

/// The pointer for parameter `i`: null when the value is absent, else the
/// start of its buffer, also when that buffer is empty.
pub open spec fn pointer_at(params: Seq<Option<Seq<u8>>>, i: int) -> ParamPointer {
    match params[i] {
        Some(_) => ParamPointer::BufferStart(i as usize),
        None => ParamPointer::Null,
    }
}

/// The length for parameter `i`: zero when the value is absent, else its
/// buffer's length.
pub open spec fn length_at(params: Seq<Option<Seq<u8>>>, i: int) -> i32 {
    match params[i] {
        Some(b) => b.len() as i32,
        None => 0,
    }
}

/// Whether every count and length of `data` fits the C `int` of the call.
pub open spec fn fits_c_int(data: Seq<Option<Vec<u8>>>) -> bool {
    &&& data.len() <= i32::MAX
    &&& forall|i: int| 0 <= i < data.len() ==> (#[trigger] data[i] matches Some(b) ==> b@.len() <= i32::MAX)
}

/// The execute-prepared call made for statement `s` with parameter values
/// `params`, asking for binary results.
pub open spec fn execute_call(s: StatementView, params: Seq<Option<Seq<u8>>>) -> ExecuteCall {
    ExecuteCall {
        name: s.name,
        parameter_formats: s.parameter_formats,
        param_count: params.len() as int,
        pointers: Seq::new(params.len(), |i: int| pointer_at(params, i)),
        lengths: Seq::new(params.len(), |i: int| length_at(params, i)),
        result_format: BINARY_FORMAT,
    }
}

/// The arguments of one prepare call, checked and converted, before the call.
pub struct PrepareRequest {
    name: CText,
    sql: CText,
    fingerprint: String,
    param_count: i32,
    param_type_ids: Option<Vec<u32>>,
}

impl View for PrepareRequest {
    type V = PrepareCall;

    closed spec fn view(&self) -> PrepareCall {
        PrepareCall {
            name: self.name@,
            sql: self.sql@,
            fingerprint: self.fingerprint@,
            param_count: self.param_count as int,
            param_type_ids: match self.param_type_ids {
                Some(v) => Some(v@),
                None => None,
            },
        }
    }
}

/// A statement prepared on a backend session, executable any number of times.
/// Its fields never change once it is made.
pub struct Statement {
    name: CText,
    sql_hash: String,
    param_formats: Vec<i32>,
}

impl View for Statement {
    type V = StatementView;

    closed spec fn view(&self) -> StatementView {
        StatementView {
            name: self.name@,
            fingerprint: self.sql_hash@,
            parameter_formats: self.param_formats@,
        }
    }
}

/// The arguments of one execute-prepared call. The pointer and length arrays
/// live only as long as the request.
pub struct ExecuteRequest<'a> {
    statement: &'a Statement,
    param_count: i32,
    pointers: Vec<ParamPointer>,
    lengths: Vec<i32>,
}

impl<'a> View for ExecuteRequest<'a> {
    type V = ExecuteCall;

    closed spec fn view(&self) -> ExecuteCall {
        ExecuteCall {
            name: self.statement@.name,
            parameter_formats: self.statement@.parameter_formats,
            param_count: self.param_count as int,
            pointers: self.pointers@,
            lengths: self.lengths@,
            result_format: BINARY_FORMAT,
        }
    }
}

/// The type ids as the prepare call takes them: none at all when there are no
/// parameters, so that the call sees a null pointer.
fn type_ids_argument(param_types: &[u32]) -> (r: Option<Vec<u32>>)
    ensures
        r matches Some(v) ==> v@ == param_types@,
        r is None <==> param_types@.len() == 0,
{
    if param_types.len() == 0 {
        None
    } else {
        let mut ids: Vec<u32> = Vec::new();
        let mut i: usize = 0;
        while i < param_types.len()
            invariant
                i <= param_types@.len(),
                ids@ == param_types@.subrange(0, i as int),
            decreases param_types@.len() - i,
        {
            ids.push(param_types[i]);
            i = i + 1;
        }
        assert(ids@ =~= param_types@);
        Some(ids)
    }
}

impl Statement {
    /// Checks and converts the arguments of a prepare call: the SQL text, the
    /// statement name (absent for the unnamed statement) and the backend type
    /// ids of the declared parameters. Fails with `InvalidIdentifier` when the
    /// name or the text holds an embedded null byte, before any call is made.
    pub fn prepare(sql: &str, name: Option<&str>, param_types: &[u32]) -> (r: Result<
        PrepareRequest,
        StatementError,
    >)
        requires
            param_types@.len() <= i32::MAX,
        ensures
            r is Ok <==> valid_identifiers(sql.spec_bytes(), name_bytes(name)),
            r matches Ok(q) ==> prepare_outcome(sql.spec_bytes(), name_bytes(name), param_types@)
                == Ok::<PrepareCall, StatementError>(q@),
            r matches Err(e) ==> prepare_outcome(sql.spec_bytes(), name_bytes(name), param_types@)
                == Err::<PrepareCall, StatementError>(e),
    {
        let sql_hash = sql_fingerprint(sql);
        let c_name = match name {
            Some(n) => CText::new(n),
            None => {
                proof {
                    reveal_strlit("");
                }
                CText::new("")
            },
        };
        let c_name = match c_name {
            Some(t) => t,
            None => return Err(StatementError::InvalidIdentifier),
        };
        let c_sql = match CText::new(sql) {
            Some(t) => t,
            None => return Err(StatementError::InvalidIdentifier),
        };
        let param_type_ids = type_ids_argument(param_types);
        Ok(
            PrepareRequest {
                name: c_name,
                sql: c_sql,
                fingerprint: sql_hash,
                param_count: param_types.len() as i32,
                param_type_ids,
            },
        )
    }
}


impl PrepareRequest {
    #[verifier::type_invariant]
    closed spec fn well_formed(&self) -> bool {
        self.param_count >= 0
    }

    /// Completes preparation with the backend's reply to the prepare call: a
    /// `Statement` with one binary format tag per declared parameter when the
    /// backend accepted it, else the reply's error and no statement.
    pub fn finish<R>(self, reply: BackendReply<R>) -> (r: Result<Statement, StatementError>)
        ensures
            reply_outcome(reply) is Ok ==> (r matches Ok(s) && s@ == statement_of(self@)),
            reply_outcome(reply) matches Err(e) ==> r == Err::<Statement, StatementError>(e),
    {
        proof {
            use_type_invariant(&self);
        }
        match accept_reply(reply) {
            Ok(_) => {
                let mut param_formats: Vec<i32> = Vec::new();
                let mut i: i32 = 0;
                while i < self.param_count
                    invariant
                        0 <= i <= self.param_count,
                        param_formats@ == binary_formats(i as int),
                    decreases self.param_count - i,
                {
                    param_formats.push(BINARY_FORMAT);
                    i = i + 1;
                    assert(param_formats@ =~= binary_formats(i as int));
                }
                Ok(Statement { name: self.name, sql_hash: self.fingerprint, param_formats })
            },
            Err(e) => Err(e),
        }
    }

    /// The statement name, null-terminated.
    pub fn name(&self) -> (r: &CText)
        ensures
            r@ == self@.name,
    {
        &self.name
    }

    /// The SQL text, null-terminated.
    pub fn sql(&self) -> (r: &CText)
        ensures
            r@ == self@.sql,
    {
        &self.sql
    }

    /// The fingerprint of the SQL text.
    pub fn fingerprint(&self) -> (r: &str)
        ensures
            r@ == self@.fingerprint,
    {
        self.fingerprint.as_str()
    }

    /// The number of declared parameters.
    pub fn param_count(&self) -> (r: i32)
        ensures
            r as int == self@.param_count,
    {
        self.param_count
    }

    /// The type ids of the declared parameters; none when there are none.
    pub fn param_type_ids(&self) -> (r: Option<&[u32]>)
        ensures
            r matches Some(v) ==> self@.param_type_ids == Some(v@),
            r is None ==> self@.param_type_ids is None,
    {
        match &self.param_type_ids {
            Some(v) => Some(v.as_slice()),
            None => None,
        }
    }
}

impl Statement {
    /// Marshals parameter values for one execute-prepared call of this
    /// statement: for each value a pointer and a length, a null pointer and
    /// length zero for an absent value (SQL NULL), the buffer's start and its
    /// length for a present one, even an empty one. The count is not checked
    /// against the declared parameters: the backend reports a mismatch.
    pub fn execute<'a>(&'a self, param_data: &Vec<Option<Vec<u8>>>) -> (r: ExecuteRequest<'a>)
        requires
            fits_c_int(param_data@),
        ensures
            r@ == execute_call(self@, buffers(param_data@)),
    {
        let ghost params = buffers(param_data@);
        let mut pointers: Vec<ParamPointer> = Vec::new();
        let mut lengths: Vec<i32> = Vec::new();
        let mut i: usize = 0;
        while i < param_data.len()
            invariant
                params == buffers(param_data@),
                fits_c_int(param_data@),
                i <= param_data@.len(),
                pointers@.len() == i,
                lengths@.len() == i,
                forall|j: int| 0 <= j < i ==> pointers@[j] == pointer_at(params, j),
                forall|j: int| 0 <= j < i ==> lengths@[j] == length_at(params, j),
            decreases param_data@.len() - i,
        {
            assert(param_data@[i as int] matches Some(b) ==> b@.len() <= i32::MAX);
            match &param_data[i] {
                Some(b) => {
                    pointers.push(ParamPointer::BufferStart(i));
                    lengths.push(b.len() as i32);
                },
                None => {
                    pointers.push(ParamPointer::Null);
                    lengths.push(0);
                },
            }
            i = i + 1;
        }
        let r = ExecuteRequest {
            statement: self,
            param_count: param_data.len() as i32,
            pointers,
            lengths,
        };
        assert(r@.pointers =~= execute_call(self@, params).pointers);
        assert(r@.lengths =~= execute_call(self@, params).lengths);
        r
    }

    /// The statement name, null-terminated.
    pub fn name(&self) -> (r: &CText)
        ensures
            r@ == self@.name,
    {
        &self.name
    }

    /// The fingerprint of the statement's SQL text.
    pub fn sql_hash(&self) -> (r: &str)
        ensures
            r@ == self@.fingerprint,
    {
        self.sql_hash.as_str()
    }

    /// The format tag of each parameter.
    pub fn parameter_formats(&self) -> (r: &[i32])
        ensures
            r@ == self@.parameter_formats,
    {
        self.param_formats.as_slice()
    }
}

impl<'a> ExecuteRequest<'a> {
    /// The statement to execute.
    pub fn statement(&self) -> (r: &'a Statement)
        ensures
            r@.name == self@.name,
            r@.parameter_formats == self@.parameter_formats,
    {
        self.statement
    }

    /// The number of parameter values.
    pub fn param_count(&self) -> (r: i32)
        ensures
            r as int == self@.param_count,
    {
        self.param_count
    }

    /// Where each parameter's pointer points.
    pub fn pointers(&self) -> (r: &[ParamPointer])
        ensures
            r@ == self@.pointers,
    {
        self.pointers.as_slice()
    }

    /// The byte length of each parameter.
    pub fn lengths(&self) -> (r: &[i32])
        ensures
            r@ == self@.lengths,
    {
        self.lengths.as_slice()
    }

    /// The format asked for the results: always binary.
    pub fn result_format(&self) -> (r: i32)
        ensures
            r == self@.result_format,
    {
        BINARY_FORMAT
    }
}

} // verus!
