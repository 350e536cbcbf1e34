use hdnode::account::Address;
use hdnode::account::Signature;
use hdnode::json::Json;
use hdnode::node::transaction::Transaction;
use hdnode::node::transaction::TransactionRequest;
use hdnode::node::typeddata::TypedData;
use hdnode::serialization::Bytes;
use hdnode::serialization::Quantity;
use hdnode::serialization::Str;
use hdnode::signer::log_recorder::LogRecorder;
use hdnode::signer::validator::verdict;
use hdnode::signer::validator::PolicyError;
use hdnode::signer::validator::Validator;
use hdnode::signer::wallet::Wallet;
use hdnode::signer::SignError;
use hdnode::signer::Signing;
use hdnode::node::transaction::Failure;

struct Keys {
    wallet: Wallet,
}

impl Keys {
    fn new() -> Self {
        Keys { wallet: Wallet::new(vec![Address([1; 20]), Address([2; 20])]) }
    }

    fn sign(&self, account: Address, tag: u8) -> Result<Signature, SignError> {
        match self.wallet.sign(account) {
            Ok(index) => Ok(Signature { r: [index as u8; 32], s: [tag; 32], v: 27 }),
            Err(e) => Err(SignError::UnknownSigner(e.0)),
        }
    }
}

impl Signing for Keys {
    fn accounts(&self) -> &[Address] {
        self.wallet.accounts()
    }

    fn sign_message(&self, account: Address, message: &[u8]) -> Result<Signature, SignError> {
        self.sign(account, message.len() as u8)
    }

    fn sign_transaction(
        &self,
        account: Address,
        _transaction: &Transaction,
    ) -> Result<Signature, SignError> {
        self.sign(account, 0xee)
    }

    fn sign_typed_data(
        &self,
        account: Address,
        _typed_data: &TypedData,
    ) -> Result<Signature, SignError> {
        self.sign(account, 0xdd)
    }
}

fn transaction(value: u128) -> Transaction {
    Transaction::from_args(TransactionRequest {
        from: Str(Address([1; 20])),
        to: None,
        gas: Some(Quantity::new(21000)),
        gas_price: Some(Quantity::new(1)),
        max_fee_per_gas: None,
        max_priority_fee_per_gas: None,
        value: Quantity::new(value),
        data: Bytes(vec![]),
        nonce: Some(Quantity::new(0)),
        access_list: None,
        chain_id: Some(Quantity::new(1)),
        transaction_type: None,
    })
}

fn typed(text: &str) -> TypedData {
    TypedData::from_json(Json::decode(text).unwrap()).unwrap()
}

const POLICY: &str = r#"
function validate_message(account, data)
    return data == "0x68656c6c6f" and account == "0x0101010101010101010101010101010101010101"
end

function validate_transaction(account, transaction)
    return transaction.value == "0x1" and transaction.data == "0x" and transaction.from == nil
end

function validate_typed_data(account, data)
    if data.fail then
        error("refused")
    end
    return data.domain.name
end
"#;

#[test]
fn wallet_keeps_the_order_of_its_accounts() {
    let accounts: Vec<Address> = (0..5).map(|i| Address([i; 20])).collect();
    let wallet = Wallet::new(accounts.clone());
    assert_eq!(wallet.accounts(), &accounts[..]);
    for (index, account) in accounts.iter().enumerate() {
        assert_eq!(wallet.sign(*account).unwrap(), index);
    }
    assert_eq!(wallet.sign(Address([9; 20])).unwrap_err().0, Address([9; 20]));
    assert!(Wallet::new(vec![]).sign(Address([0; 20])).is_err());
    let twice = Wallet::new(vec![Address([1; 20]), Address([2; 20]), Address([1; 20])]);
    assert_eq!(twice.sign(Address([1; 20])).unwrap(), 2);
}

#[test]
fn recorder_signs_as_the_signer_inside() {
    let recorder = LogRecorder(Keys::new());
    assert_eq!(recorder.accounts(), &[Address([1; 20]), Address([2; 20])]);
    let signature = recorder.sign_message(Address([2; 20]), b"hello").unwrap();
    assert_eq!(signature.r, [1; 32]);
    assert_eq!(signature.s, [5; 32]);
    assert!(matches!(
        recorder.sign_message(Address([3; 20]), b"hello"),
        Err(SignError::UnknownSigner(a)) if a == Address([3; 20])
    ));
    assert!(recorder.sign_transaction(Address([1; 20]), &transaction(1)).is_ok());
    assert!(recorder.sign_typed_data(Address([1; 20]), &typed("{}")).is_ok());
    let record = LogRecorder::<Keys>::message_record(Address([2; 20]), b"hello", signature);
    assert_eq!(record.account, format!("0x{}", "02".repeat(20)));
    assert_eq!(record.signed, "0x68656c6c6f");
    assert_eq!(record.signature, format!("0x{}{}1b", "01".repeat(32), "05".repeat(32)));
}

#[test]
fn policy_allows_and_refuses_messages() {
    let validator = Validator::new(LogRecorder(Keys::new()), POLICY).unwrap();
    assert_eq!(validator.accounts(), &[Address([1; 20]), Address([2; 20])]);
    assert!(validator.sign_message(Address([1; 20]), b"hello").is_ok());
    assert!(matches!(
        validator.sign_message(Address([1; 20]), b"other"),
        Err(SignError::Rejected)
    ));
    assert!(matches!(
        validator.sign_message(Address([2; 20]), b"hello"),
        Err(SignError::Rejected)
    ));
    assert!(validator.validate_message(Address([1; 20]), b"hello").is_ok());
}

#[test]
fn policy_sees_the_transaction_as_the_node_does() {
    let validator = Validator::new(Keys::new(), POLICY).unwrap();
    assert!(validator.sign_transaction(Address([1; 20]), &transaction(1)).is_ok());
    assert!(matches!(
        validator.sign_transaction(Address([1; 20]), &transaction(2)),
        Err(SignError::Rejected)
    ));
}

#[test]
fn policy_that_fails_or_says_nothing_refuses() {
    let validator = Validator::new(Keys::new(), POLICY).unwrap();
    let account = Address([1; 20]);
    assert!(validator.sign_typed_data(account, &typed(r#"{"domain":{"name":true}}"#)).is_ok());
    assert!(validator.sign_typed_data(account, &typed(r#"{"domain":{"name":"yes"}}"#)).is_ok());
    for text in [
        r#"{"domain":{"name":false}}"#,
        r#"{"domain":{}}"#,
        r#"{"fail":true,"domain":{"name":true}}"#,
        r#"{}"#,
    ] {
        assert!(
            matches!(validator.sign_typed_data(account, &typed(text)), Err(SignError::Rejected)),
            "{}",
            text
        );
    }
}

#[test]
fn policy_without_a_hook_refuses() {
    let validator = Validator::new(Keys::new(), "x = 1").unwrap();
    assert!(matches!(
        validator.sign_message(Address([1; 20]), b"hello"),
        Err(SignError::Rejected)
    ));
    assert!(matches!(
        validator.validate("validate_message", Address([1; 20]), &Json::Null),
        Err(SignError::Rejected)
    ));
}

#[test]
fn policy_is_asked_before_the_signer() {
    let validator = Validator::new(Keys::new(), POLICY).unwrap();
    assert!(matches!(
        validator.sign_message(Address([9; 20]), b"hello"),
        Err(SignError::Rejected)
    ));
    let open = Validator::new(Keys::new(), "function validate_message() return true end").unwrap();
    assert!(matches!(
        open.sign_message(Address([9; 20]), b"hello"),
        Err(SignError::UnknownSigner(a)) if a == Address([9; 20])
    ));
}

#[test]
fn policy_runs_without_files_and_processes() {
    for source in [
        "function validate_message() return io ~= nil end",
        "function validate_message() return os ~= nil end",
        "function validate_message() return require ~= nil end",
    ] {
        let validator = Validator::new(Keys::new(), source).unwrap();
        assert!(
            matches!(validator.sign_message(Address([1; 20]), b""), Err(SignError::Rejected)),
            "{}",
            source
        );
    }
    let utilities = "function validate_message() return string ~= nil and table ~= nil and math ~= nil and utf8 ~= nil end";
    let validator = Validator::new(Keys::new(), utilities).unwrap();
    assert!(validator.sign_message(Address([1; 20]), b"").is_ok());
}

#[test]
fn policy_that_does_not_load() {
    assert_eq!(
        Validator::new(Keys::new(), "function (").err(),
        Some(PolicyError::Source)
    );
    assert_eq!(Validator::new(Keys::new(), "error('no')").err(), Some(PolicyError::Source));
}

#[test]
fn verdicts() {
    assert!(verdict(Some(true)).is_ok());
    assert!(matches!(verdict(Some(false)), Err(SignError::Rejected)));
    assert!(matches!(verdict(None), Err(SignError::Rejected)));
}

#[test]
fn failures_of_sign_errors() {
    assert_eq!(SignError::UnknownSigner(Address([0; 20])).failure(), Failure::InvalidParams);
    assert_eq!(SignError::Rejected.failure(), Failure::InvalidParams);
    assert_eq!(SignError::Malformed.failure(), Failure::InvalidParams);
    assert_eq!(SignError::Other.failure(), Failure::InternalError);
}
