//! A signer that asks a policy before it signs.

use crate::account::Address;
use crate::account::Signature;
use crate::json::to_value;
use crate::json::Json;
use crate::json::JsonView;
use crate::node::transaction::bytes_json;
use crate::node::transaction::transaction_json;
use crate::node::transaction::Transaction;
use crate::node::typeddata::TypedData;
use crate::serialization::encode_bytes;
use crate::serialization::Str;
use crate::signer::lists;
use crate::signer::signs_message;
use crate::signer::signs_transaction;
use crate::signer::signs_typed_data;
use crate::signer::SignError;
use crate::signer::Signing;
use mlua::Lua;
use mlua::LuaSerdeExt;
use mlua::StdLib;
use std::sync::Mutex;
use vstd::prelude::*;

verus! {

/// The engine that runs the policy.
#[verifier::external_type_specification]
#[verifier::external_body]
pub struct ExLua(mlua::Lua);

/// The lock of `std` around a value.
#[verifier::external_type_specification]
#[verifier::external_body]
#[verifier::reject_recursive_types(T)]
pub struct ExMutex<T: ?Sized>(std::sync::Mutex<T>);

/// `mlua::Lua::new_with`: an engine with the libraries for tables, strings,
/// UTF-8 and mathematics and no other, behind a lock; none where the engine
/// fails to start.
#[verifier::external_body]
fn new_engine() -> (r: Option<Mutex<Lua>>) {
    let libraries = StdLib::TABLE | StdLib::STRING | StdLib::UTF8 | StdLib::MATH;
    Some(Mutex::new(Lua::new_with(libraries, Default::default()).ok()?))
}

/// `mlua::Chunk::exec` of the source, loaded under the name `validator`;
/// `false` where it fails.
#[verifier::external_body]
fn load_policy(engine: &Mutex<Lua>, source: &str) -> (r: bool) {
    let lua = engine.lock().unwrap_or_else(|poisoned| poisoned.into_inner());
    lua.load(source).set_name("validator").and_then(|chunk| chunk.exec()).is_ok()
}

/// `mlua::Function::call` of the global function of the given name, with the
/// account and the data as its arguments and a boolean as its result; none
/// where there is no such function and where the call fails.
#[verifier::external_body]
fn call_hook(engine: &Mutex<Lua>, name: &str, account: &str, data: &serde_json::Value) -> (r: Option<
    bool,
>) {
    let lua = engine.lock().unwrap_or_else(|poisoned| poisoned.into_inner());
    let hook: mlua::Function = lua.globals().get(name).ok()?;
    let input = (account.to_owned(), lua.to_value(data).ok()?);
    let allowed = hook.call(input).ok();
    allowed
}

/// The policy could not be set up.
#[derive(Clone, Copy, Debug, PartialEq, Eq, Structural)]
pub enum PolicyError {
    /// There is no engine.
    Engine,
    /// The policy does not load.
    Source,
}

/// A signer around another that signs only what a policy allows. The policy
/// is a script with a function for each kind of signature, which is given the
/// account and what is to be signed, and says yes or no. The signer inside is
/// asked only where the policy said yes, and its answer is then the answer.
pub struct Validator<S> {
    lua: Mutex<Lua>,
    inner: S,
}

/// What the policy said: yes only where its function ran and returned
/// `true`.
pub fn verdict(outcome: Option<bool>) -> (r: Result<(), SignError>)
    ensures
        r is Ok <==> outcome == Some(true),
        r is Err ==> r matches Err(SignError::Rejected),
{
    match outcome {
        Some(true) => Ok(()),
        _ => Err(SignError::Rejected),
    }
}

/// Whether an engine is what came of starting one, and the policy of the given
/// source was then loaded into it or not; nothing is loaded where no engine
/// started.
pub closed spec fn set_up(source: &str, engine: Option<Mutex<Lua>>, loaded: bool) -> bool {
    &&& call_ensures(new_engine, (), engine)
    &&& match engine {
        Some(lua) => call_ensures(load_policy, (&lua, source), loaded),
        None => !loaded,
    }
}

impl<S> Validator<S> {
    /// What becomes of a signer and the engine of its policy: the signer
    /// around it where the engine started and the policy loaded, and else the
    /// error for what did not.
    fn with_engine(inner: S, engine: Option<Mutex<Lua>>, loaded: bool) -> (r: Result<
        Self,
        PolicyError,
    >)
        ensures
            match r {
                Ok(validator) => engine is Some && loaded && validator.inner_view() == inner,
                Err(e) => if engine is None {
                    e == PolicyError::Engine
                } else {
                    e == PolicyError::Source && !loaded
                },
            },
    {
        match engine {
            None => Err(PolicyError::Engine),
            Some(lua) => {
                if loaded {
                    Ok(Self { lua, inner })
                } else {
                    Err(PolicyError::Source)
                }
            },
        }
    }

    /// A signer that asks the policy of the given source, which is loaded
    /// into an engine of its own. There is a signer where the engine started
    /// and the policy loaded; where not, the error tells which of the two did
    /// not.
    pub fn new(inner: S, source: &str) -> (r: Result<Self, PolicyError>)
        ensures
            exists|engine: Option<Mutex<Lua>>, loaded: bool|
                set_up(source, engine, loaded) && match r {
                    Ok(validator) => engine is Some && loaded && validator.inner_view() == inner,
                    Err(e) => if engine is None {
                        e == PolicyError::Engine
                    } else {
                        e == PolicyError::Source && !loaded
                    },
                },
    {
        let engine = new_engine();
        let loaded = match &engine {
            Some(lua) => load_policy(lua, source),
            None => false,
        };
        let ghost started = engine;
        assert(set_up(source, started, loaded));
        Self::with_engine(inner, engine, loaded)
    }

    /// The signer inside.
    pub closed spec fn inner_view(&self) -> S {
        self.inner
    }

    /// Hands the account as text and the data to the function of the given
    /// name in the policy, and gives what it returned; nothing where there is
    /// no such function, where it fails, and where the data has no form that
    /// it can be given in.
    fn ask(&self, name: &str, account: Address, data: &Json) -> (outcome: Option<bool>) {
        let value = match to_value(data) {
            Some(value) => value,
            None => { return None; },
        };
        let text = Str(account).encode();
        call_hook(&self.lua, name, text.as_str(), &value)
    }

    /// Whether an outcome is one that the function of the given name in the
    /// policy gave when it was handed an account and some data.
    pub closed spec fn said(
        &self,
        name: &str,
        account: Address,
        data: &Json,
        outcome: Option<bool>,
    ) -> bool {
        call_ensures(Self::ask, (self, name, account, data), outcome)
    }

    /// Whether the policy said yes, or said no, when its function of the given
    /// name was asked about an account and some data.
    pub open spec fn gave(
        &self,
        name: Seq<char>,
        account: Address,
        data: JsonView,
        allowed: bool,
    ) -> bool {
        exists|function: &str, value: Json, verdict: Result<(), SignError>|
            function@ == name && value@ == data && verdict is Ok == allowed && call_ensures(
                Self::validate,
                (self, function, account, &value),
                verdict,
            )
    }

    /// Asks the policy: its function of the given name is handed the account
    /// and the data, and the verdict is yes only where it returned `true`.
    /// It is no where the function says no, is missing or fails, and where
    /// the data cannot be handed to it.
    pub fn validate(&self, name: &str, account: Address, data: &Json) -> (r: Result<(), SignError>)
        ensures
            exists|outcome: Option<bool>|
                self.said(name, account, data, outcome) && (r is Ok <==> outcome == Some(true)),
            r is Err ==> r matches Err(SignError::Rejected),
    {
        let outcome = self.ask(name, account, data);
        assert(self.said(name, account, data, outcome));
        verdict(outcome)
    }

    /// Asks the policy about a message: its function `validate_message` is
    /// asked about the account and the message in hex.
    pub fn validate_message(&self, account: Address, message: &[u8]) -> (r: Result<(), SignError>)
        ensures
            self.gave("validate_message"@, account, bytes_json(message@), r is Ok),
            r is Err ==> r matches Err(SignError::Rejected),
    {
        let data = Json::String(encode_bytes(message));
        let r = self.validate("validate_message", account, &data);
        assert(call_ensures(Self::validate, (self, "validate_message", account, &data), r));
        r
    }

    /// Asks the policy about a transaction: its function
    /// `validate_transaction` is asked about the account and the transaction
    /// as the node sees it.
    pub fn validate_transaction(&self, account: Address, transaction: &Transaction) -> (r: Result<
        (),
        SignError,
    >)
        ensures
            self.gave(
                "validate_transaction"@,
                account,
                transaction_json(transaction.args@),
                r is Ok,
            ),
            r is Err ==> r matches Err(SignError::Rejected),
    {
        let data = transaction.to_json();
        let r = self.validate("validate_transaction", account, &data);
        assert(call_ensures(Self::validate, (self, "validate_transaction", account, &data), r));
        r
    }

    /// Asks the policy about typed data: its function `validate_typed_data`
    /// is asked about the account and the typed data as the client sent it.
    pub fn validate_typed_data(&self, account: Address, typed_data: &TypedData) -> (r: Result<
        (),
        SignError,
    >)
        ensures
            self.gave("validate_typed_data"@, account, typed_data.raw@, r is Ok),
            r is Err ==> r matches Err(SignError::Rejected),
    {
        let r = self.validate("validate_typed_data", account, &typed_data.raw);
        assert(call_ensures(
            Self::validate,
            (self, "validate_typed_data", account, &typed_data.raw),
            r,
        ));
        r
    }
}

impl<S: Signing> Signing for Validator<S> {
    fn accounts(&self) -> (r: &[Address])
        ensures
            lists(&self.inner_view(), r),
    {
        self.inner.accounts()
    }

    fn sign_message(&self, account: Address, message: &[u8]) -> (r: Result<Signature, SignError>)
        ensures
            ({
                &&& self.gave("validate_message"@, account, bytes_json(message@), true)
                &&& signs_message(&self.inner_view(), account, message, r)
            }) || ({
                &&& self.gave(
                    "validate_message"@,
                    account,
                    bytes_json(message@),
                    false,
                )
                &&& r matches Err(SignError::Rejected)
            }),
    {
        let verdict = self.validate_message(account, message);
        match verdict {
            Ok(_) => {
                self.inner.sign_message(account, message)
            },
            Err(e) => Err(e),
        }
    }

    fn sign_transaction(&self, account: Address, transaction: &Transaction) -> (r: Result<
        Signature,
        SignError,
    >)
        ensures
            ({
                &&& self.gave(
                    "validate_transaction"@,
                    account,
                    transaction_json(transaction.args@),
                    true,
                )
                &&& signs_transaction(&self.inner_view(), account, transaction, r)
            }) || ({
                &&& self.gave(
                    "validate_transaction"@,
                    account,
                    transaction_json(transaction.args@),
                    false,
                )
                &&& r matches Err(SignError::Rejected)
            }),
    {
        let verdict = self.validate_transaction(account, transaction);
        match verdict {
            Ok(_) => {
                self.inner.sign_transaction(account, transaction)
            },
            Err(e) => Err(e),
        }
    }

    fn sign_typed_data(&self, account: Address, typed_data: &TypedData) -> (r: Result<
        Signature,
        SignError,
    >)
        ensures
            ({
                &&& self.gave("validate_typed_data"@, account, typed_data.raw@, true)
                &&& signs_typed_data(&self.inner_view(), account, typed_data, r)
            }) || ({
                &&& self.gave(
                    "validate_typed_data"@,
                    account,
                    typed_data.raw@,
                    false,
                )
                &&& r matches Err(SignError::Rejected)
            }),
    {
        let verdict = self.validate_typed_data(account, typed_data);
        match verdict {
            Ok(_) => {
                self.inner.sign_typed_data(account, typed_data)
            },
            Err(e) => Err(e),
        }
    }
}

} // verus!
