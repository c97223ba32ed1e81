//! Authorization of the public keys of peers that connect.

use vstd::prelude::*;

verus! {

/// What can go wrong with an authorization.
#[derive(Clone, Copy, Debug, PartialEq, Eq, Structural)]
pub enum AuthorizatorError {
    /// The other side is not there.
    MissingService,
    /// The other side disappeared before it answered.
    ServiceDisappeared,
}

/// Allows one to authorize incoming public keys, one request at a time: what it
/// is given is whether the request could be handed over, and the answer if one
/// came.
pub trait Authorization {
    /// What the authorization comes to.
    fn is_authorized(&self, handed_over: bool, answer: Option<bool>) -> (result: Result<
        bool,
        AuthorizatorError,
    >)
        ensures
            result == authorization_result(handed_over, answer),
    ;
}

/// What an authorization comes to, given whether the request could be handed
/// over, and the answer if one came.
pub open spec fn authorization_result(handed_over: bool, answer: Option<bool>) -> Result<
    bool,
    AuthorizatorError,
> {
    if !handed_over {
        Err(AuthorizatorError::MissingService)
    } else {
        match answer {
            Some(authorized) => Ok(authorized),
            None => Err(AuthorizatorError::ServiceDisappeared),
        }
    }
}

/// `Authorizator` is responsible for authorization of public keys. Each request
/// should be followed by a call of [`handle_authorization`] on the other side.
#[derive(Clone, Copy, Debug)]
pub struct Authorizator;

impl Authorization for Authorizator {
    fn is_authorized(&self, handed_over: bool, answer: Option<bool>) -> (result: Result<
        bool,
        AuthorizatorError,
    >) {
        if !handed_over {
            return Err(AuthorizatorError::MissingService);
        }
        match answer {
            Some(authorized) => Ok(authorized),
            None => Err(AuthorizatorError::ServiceDisappeared),
        }
    }
}

/// Answers a request for authorization by a callback. There is no request where
/// all authorizators are gone.
pub fn handle_authorization<PK, F: FnOnce(PK) -> bool>(
    request: Option<PK>,
    handler: F,
) -> (answer: Result<bool, AuthorizatorError>)
    requires
        request matches Some(identifier) ==> call_requires(handler, (identifier,)),
    ensures
        match request {
            None => answer == Err::<bool, _>(AuthorizatorError::MissingService),
            Some(identifier) => answer matches Ok(authorized) && call_ensures(
                handler,
                (identifier,),
                authorized,
            ),
        },
{
    match request {
        None => Err(AuthorizatorError::MissingService),
        Some(identifier) => {
            let auth_result: bool = handler(identifier);
            Ok(auth_result)
        },
    }
}

/// What handling a request comes to, once the answer was sent or could not be.
pub fn answer_sent(sent: bool) -> (result: Result<(), AuthorizatorError>)
    ensures
        result == if sent {
            Ok(())
        } else {
            Err(AuthorizatorError::MissingService)
        },
{
    if sent {
        Ok(())
    } else {
        Err(AuthorizatorError::MissingService)
    }
}

/// Something that goes on with what a continuation makes of its value.
pub trait Continuation<In, Out, AllOut>: Sized {
    /// The value that the continuation is given.
    spec fn value(self) -> In;

    /// Whether `all` is what comes of `out`.
    spec fn comes_of(out: Out, all: AllOut) -> bool;

    /// Goes on with what the continuation makes of the value.
    fn cont<F: FnOnce(In) -> Out>(self, continuation: F) -> (all: AllOut)
        requires
            call_requires(continuation, (self.value(),)),
        ensures
            exists|out: Out| #[trigger]
                call_ensures(continuation, (self.value(),), out) && Self::comes_of(out, all),
    ;
}

/// A request for authorization: the key that has to be authorized.
#[derive(Debug)]
pub struct AuthContinuationHandler<PK> {
    pub result: PK,
}

impl<PK> AuthContinuationHandler<PK> {
    /// A request to authorize the key.
    pub fn new(result: PK) -> (handler: Self)
        ensures
            handler.result == result,
    {
        AuthContinuationHandler { result }
    }

    /// Answers the request by a callback, and sends the answer. An error says that
    /// the answer could not be sent.
    pub fn handle_authorization<F: FnOnce(PK) -> bool, S: FnOnce(bool) -> bool>(
        self,
        handler: F,
        send: S,
    ) -> (result: Result<(), ()>)
        requires
            call_requires(handler, (self.result,)),
            forall|answer: bool| call_requires(send, (answer,)),
        ensures
            exists|answer: bool, sent: bool|
                {
                    &&& #[trigger] call_ensures(handler, (self.result,), answer)
                    &&& #[trigger] call_ensures(send, (answer,), sent)
                    &&& result == if sent {
                        Ok(())
                    } else {
                        Err(())
                    }
                },
    {
        let auth_result: bool = handler(self.result);
        let sent: bool = send(auth_result);
        if sent {
            Ok(())
        } else {
            Err(())
        }
    }
}

impl<PK> Continuation<PK, bool, bool> for AuthContinuationHandler<PK> {
    open spec fn value(self) -> PK {
        self.result
    }

    open spec fn comes_of(out: bool, all: bool) -> bool {
        all == out
    }

    fn cont<F: FnOnce(PK) -> bool>(self, continuation: F) -> (all: bool) {
        let auth_result: bool = continuation(self.result);
        auth_result
    }
}

/// A peer counts as authorized, or as not authorized, only where the request was
/// handed over and that was the answer. Otherwise there is an error: one where
/// nobody took the request, another where nobody answered it.
pub proof fn authorized_only_by_an_answer(handed_over: bool, answer: Option<bool>)
    ensures
        authorization_result(handed_over, answer) == Ok::<_, AuthorizatorError>(true)
            <==> handed_over && answer == Some(true),
        authorization_result(handed_over, answer) == Ok::<_, AuthorizatorError>(false)
            <==> handed_over && answer == Some(false),
        authorization_result(handed_over, answer) == Err::<bool, _>(
            AuthorizatorError::MissingService,
        ) <==> !handed_over,
        authorization_result(handed_over, answer) == Err::<bool, _>(
            AuthorizatorError::ServiceDisappeared,
        ) <==> handed_over && answer is None,
{
}

/// A request goes on with exactly the answer that the callback gave for its key.
pub proof fn requests_go_on_with_the_answer<PK>(
    handler: AuthContinuationHandler<PK>,
    answer: bool,
    result: bool,
)
    ensures
        <AuthContinuationHandler<PK> as Continuation<PK, bool, bool>>::value(handler)
            == handler.result,
        <AuthContinuationHandler<PK> as Continuation<PK, bool, bool>>::comes_of(answer, result)
            <==> answer == result,
{
}

} // verus!
