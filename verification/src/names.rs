//! The member names of the wire format.

use vstd::prelude::*;

verus! {

/// The protocol version that every message carries.
pub const VERSION: &'static str = "2.0";

/// The member that holds the protocol version.
pub const JSONRPC: &'static str = "jsonrpc";

/// The member that holds the name of the method of a call.
pub const METHOD: &'static str = "method";

/// The member that holds the parameters of a call.
pub const PARAMS: &'static str = "params";

/// The member that holds the identifier.
pub const ID: &'static str = "id";

/// The member that holds the result of a success.
pub const RESULT: &'static str = "result";

/// The member that holds the error object of an error.
pub const ERROR: &'static str = "error";

/// The member of an error object that holds its code.
pub const CODE: &'static str = "code";

/// The member of an error object that holds its message.
pub const MESSAGE: &'static str = "message";

/// The member of an error object that holds its data.
pub const DATA: &'static str = "data";

/// No two member names of a message are the same.
pub proof fn lemma_message_names_differ()
    ensures
        JSONRPC@ != METHOD@,
        JSONRPC@ != PARAMS@,
        JSONRPC@ != ID@,
        JSONRPC@ != RESULT@,
        JSONRPC@ != ERROR@,
        METHOD@ != PARAMS@,
        METHOD@ != ID@,
        METHOD@ != RESULT@,
        METHOD@ != ERROR@,
        PARAMS@ != ID@,
        PARAMS@ != RESULT@,
        PARAMS@ != ERROR@,
        ID@ != RESULT@,
        ID@ != ERROR@,
        RESULT@ != ERROR@,
{
    reveal_strlit("jsonrpc");
    reveal_strlit("method");
    reveal_strlit("params");
    reveal_strlit("id");
    reveal_strlit("result");
    reveal_strlit("error");
    assert(JSONRPC@.len() == 7);
    assert(METHOD@.len() == 6);
    assert(PARAMS@.len() == 6);
    assert(ID@.len() == 2);
    assert(RESULT@.len() == 6);
    assert(ERROR@.len() == 5);
    assert(METHOD@[0] != PARAMS@[0]);
    assert(METHOD@[0] != RESULT@[0]);
    assert(PARAMS@[0] != RESULT@[0]);
}

/// No two member names of an error object are the same.
pub proof fn lemma_error_names_differ()
    ensures
        CODE@ != MESSAGE@,
        CODE@ != DATA@,
        MESSAGE@ != DATA@,
{
    reveal_strlit("code");
    reveal_strlit("message");
    reveal_strlit("data");
    assert(CODE@.len() == 4);
    assert(MESSAGE@.len() == 7);
    assert(DATA@.len() == 4);
    assert(CODE@[0] != DATA@[0]);
}

} // verus!
