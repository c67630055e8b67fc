//! The sender of forced exits and the decisions it makes without outside
//! help: decoding an amount, validating a request, building the batch.

use vstd::arithmetic::div_mod::{lemma_mod_bound, lemma_mod_decreases};
use vstd::prelude::*;
use vstd::string::StringSliceAdditionalSpecFns;

use crate::amount::Amount;
use crate::key::{decode_private_key, hex_bytes, is_prefixed_hex};
use crate::types::{
    AccountId, Address, Failure, ForcedExit, ForcedExitRequest, ForcedExitRequestView, Nonce,
    TimeRange, Timestamp, TokenId,
};

verus! {

/// The most decimal digits that an amount may reserve for a request
/// identifier: with more, an identifier could exceed what an `i64` holds.
pub const MAX_DIGITS_IN_ID: u8 = 18;

/// Ten to the power of `exponent`.
pub open spec fn power_of_ten(exponent: nat) -> nat
    decreases exponent,
{
    if exponent == 0 {
        1
    } else {
        10 * power_of_ten((exponent - 1) as nat)
    }
}

proof fn lemma_power_of_ten_grows(low: nat, high: nat)
    requires
        low <= high,
    ensures
        power_of_ten(low) <= power_of_ten(high),
    decreases high,
{
    if low < high {
        lemma_power_of_ten_grows(low, (high - 1) as nat);
    }
}

proof fn lemma_largest_id_space()
    ensures
        power_of_ten(MAX_DIGITS_IN_ID as nat) == 1_000_000_000_000_000_000,
{
    reveal_with_fuel(power_of_ten, 19);
}

fn ten_to_the(exponent: u8) -> (power: i64)
    requires
        exponent <= MAX_DIGITS_IN_ID,
    ensures
        power == power_of_ten(exponent as nat),
{
    let mut power: i64 = 1;
    let mut done: u8 = 0;
    while done < exponent
        invariant
            done <= exponent <= MAX_DIGITS_IN_ID,
            power == power_of_ten(done as nat),
        decreases exponent - done,
    {
        proof {
            lemma_power_of_ten_grows((done + 1) as nat, MAX_DIGITS_IN_ID as nat);
            lemma_largest_id_space();
        }
        power = power * 10;
        done = done + 1;
    }
    power
}

/// Why a sender could not be set up.
#[derive(Clone, Copy, Debug, PartialEq, Eq)]
pub enum ConfigError {
    /// The rollup knows no account under the configured sender address.
    SenderAccountNotFound,
    /// The configured signing key is not hexadecimal text behind a prefix.
    InvalidPrivateKey,
    /// The configured number of identifier digits exceeds
    /// [`MAX_DIGITS_IN_ID`].
    IdSpaceTooLarge,
}

/// What setting up a sender comes to, for each configuration.
pub open spec fn configuration_error(
    account_id: Option<AccountId>,
    digits_in_id: u8,
    sender_private_key: Seq<u8>,
) -> Option<ConfigError> {
    if account_id is None {
        Some(ConfigError::SenderAccountNotFound)
    } else if !is_prefixed_hex(sender_private_key) {
        Some(ConfigError::InvalidPrivateKey)
    } else if digits_in_id > MAX_DIGITS_IN_ID {
        Some(ConfigError::IdSpaceTooLarge)
    } else {
        None
    }
}

/// Whether a stored request is to be fulfilled by a payment of `amount`
/// observed at `submission_time`.
pub open spec fn is_due(
    amount: nat,
    submission_time: Timestamp,
    request: ForcedExitRequestView,
) -> bool {
    &&& request.fulfilled_at is None
    &&& submission_time.is_before(request.valid_until)
    &&& amount == request.price_in_wei
}

/// Whether `count` consecutive nonces from `first` on all fit a nonce.
pub open spec fn nonces_fit(first: Nonce, count: nat) -> bool {
    count == 0 || first.0 + count - 1 <= u32::MAX
}

/// The account that submits forced exits on behalf of users.
pub struct ForcedExitSender {
    forced_exit_sender_account_id: AccountId,
    digits_in_id: u8,
    sender_private_key: Vec<u8>,
}

impl ForcedExitSender {
    #[verifier::type_invariant]
    spec fn well_formed(self) -> bool {
        self.digits_in_id <= MAX_DIGITS_IN_ID
    }

    /// The account that initiates the exits.
    pub closed spec fn account_id(self) -> AccountId {
        self.forced_exit_sender_account_id
    }

    /// The number of low decimal digits of an amount that hold a request
    /// identifier.
    pub closed spec fn digits_in_id(self) -> u8 {
        self.digits_in_id
    }

    /// The bytes of the signing key.
    pub closed spec fn private_key(self) -> Seq<u8> {
        self.sender_private_key@
    }

    /// The number of identifiers that an amount can carry: ten to the power
    /// of the digits reserved for them.
    pub open spec fn id_space_size(self) -> nat {
        power_of_ten(self.digits_in_id() as nat)
    }

    /// The exit of `token` for `target` under `nonce`: no fee, no bound in
    /// time.
    pub open spec fn forced_exit(self, nonce: Nonce, target: Address, token: TokenId) -> ForcedExit {
        ForcedExit {
            initiator_account_id: self.account_id(),
            target,
            token,
            fee: 0,
            nonce,
            time_range: TimeRange::unbounded(),
        }
    }

    /// One exit per token, in the order of the tokens, under consecutive
    /// nonces from `first` on.
    pub open spec fn batch(self, first: Nonce, target: Address, tokens: Seq<TokenId>) -> Seq<
        ForcedExit,
    > {
        Seq::new(
            tokens.len(),
            |i: int| self.forced_exit(Nonce((first.0 + i) as u32), target, tokens[i]),
        )
    }

    /// Sets up the sender from what the configuration and the rollup say:
    /// the account found under the sender address, the number of identifier
    /// digits, and the signing key as prefixed hexadecimal text.
    pub fn new(account_id: Option<AccountId>, digits_in_id: u8, sender_private_key: &str) -> (sender:
        Result<ForcedExitSender, ConfigError>)
        ensures
            match configuration_error(account_id, digits_in_id, sender_private_key.spec_bytes()) {
                Some(error) => sender == Err::<ForcedExitSender, ConfigError>(error),
                None => sender is Ok && sender.unwrap().account_id() == account_id.unwrap()
                    && sender.unwrap().digits_in_id() == digits_in_id
                    && sender.unwrap().private_key() == hex_bytes(
                    sender_private_key.spec_bytes().skip(2),
                ),
            },
    {
        let forced_exit_sender_account_id = match account_id {
            Some(id) => id,
            None => {
                return Err(ConfigError::SenderAccountNotFound);
            },
        };
        let sender_private_key = match decode_private_key(sender_private_key) {
            Some(bytes) => bytes,
            None => {
                return Err(ConfigError::InvalidPrivateKey);
            },
        };
        if digits_in_id > MAX_DIGITS_IN_ID {
            return Err(ConfigError::IdSpaceTooLarge);
        }
        Ok(ForcedExitSender { forced_exit_sender_account_id, digits_in_id, sender_private_key })
    }

    /// The account that initiates the exits.
    pub fn sender_account_id(&self) -> (id: AccountId)
        ensures
            id == self.account_id(),
    {
        self.forced_exit_sender_account_id
    }

    /// The bytes of the signing key, for the host that signs.
    pub fn sender_private_key(&self) -> (key: &Vec<u8>)
        ensures
            key@ == self.private_key(),
    {
        &self.sender_private_key
    }

    /// Splits an observed amount into the request identifier that its low
    /// decimal digits carry and the amount with those digits zeroed.
    pub fn extract_id_from_amount(&self, amount: Amount) -> (decoded: (i64, Amount))
        ensures
            decoded.0 == amount@ % self.id_space_size(),
            decoded.1@ == amount@ - decoded.0,
            0 <= decoded.0 < self.id_space_size(),
            decoded.1@ + decoded.0 == amount@,
    {
        proof {
            use_type_invariant(self);
        }
        let id_space_size = ten_to_the(self.digits_in_id);
        proof {
            lemma_power_of_ten_grows(0, self.digits_in_id as nat);
            lemma_mod_bound(amount@ as int, id_space_size as int);
            lemma_mod_decreases(amount@, id_space_size as nat);
        }
        let id = amount.rem(id_space_size);
        let amount = amount.minus(id);
        (id, amount)
    }

    /// The exit of `token` for `target` under `nonce`, ready to be signed.
    pub fn build_forced_exit(&self, nonce: Nonce, target: Address, token: TokenId) -> (tx:
        ForcedExit)
        ensures
            tx == self.forced_exit(nonce, target, token),
    {
        ForcedExit {
            initiator_account_id: self.forced_exit_sender_account_id,
            target,
            token,
            fee: 0,
            nonce,
            time_range: TimeRange::default(),
        }
    }

    /// Builds the batch that fulfils `fe_request`: one exit per token, in the
    /// order of the tokens, the first under `sender_nonce` and each next one
    /// under the nonce that follows.
    pub fn build_transactions(&self, sender_nonce: Nonce, fe_request: ForcedExitRequest) -> (txs:
        Result<Vec<ForcedExit>, Failure>)
        ensures
            txs is Ok <==> nonces_fit(sender_nonce, fe_request@.tokens.len()),
            txs is Err ==> txs == Err::<Vec<ForcedExit>, Failure>(Failure::NonceOverflow),
            txs is Ok ==> txs.unwrap()@ == self.batch(
                sender_nonce,
                fe_request@.target,
                fe_request@.tokens,
            ),
            txs is Ok ==> txs.unwrap()@.len() == fe_request@.tokens.len(),
            txs is Ok ==> forall|i: int|
                0 <= i < fe_request@.tokens.len() ==> {
                    &&& (#[trigger] txs.unwrap()@[i]).nonce.0 == sender_nonce.0 + i
                    &&& txs.unwrap()@[i].target == fe_request@.target
                    &&& txs.unwrap()@[i].token == fe_request@.tokens[i]
                },
    {
        self.build_batch(sender_nonce, &fe_request)
    }

    /// [`Self::build_transactions`] on a borrowed request.
    pub fn build_batch(&self, sender_nonce: Nonce, fe_request: &ForcedExitRequest) -> (txs: Result<
        Vec<ForcedExit>,
        Failure,
    >)
        ensures
            txs is Ok <==> nonces_fit(sender_nonce, fe_request@.tokens.len()),
            txs is Err ==> txs == Err::<Vec<ForcedExit>, Failure>(Failure::NonceOverflow),
            txs is Ok ==> txs.unwrap()@ == self.batch(
                sender_nonce,
                fe_request@.target,
                fe_request@.tokens,
            ),
    {
        let count = fe_request.tokens.len();
        if count > 0 && count - 1 > (u32::MAX - sender_nonce.0) as usize {
            return Err(Failure::NonceOverflow);
        }
        let mut transactions: Vec<ForcedExit> = Vec::new();
        let mut built: usize = 0;
        while built < count
            invariant
                built <= count == fe_request.tokens.len(),
                nonces_fit(sender_nonce, count as nat),
                transactions@ == self.batch(
                    sender_nonce,
                    fe_request.target,
                    fe_request.tokens@.take(built as int),
                ),
            decreases count - built,
        {
            let nonce = Nonce(sender_nonce.0 + built as u32);
            let tx = self.build_forced_exit(nonce, fe_request.target, fe_request.tokens[built]);
            transactions.push(tx);
            built = built + 1;
            assert(transactions@ =~= self.batch(
                sender_nonce,
                fe_request.target,
                fe_request.tokens@.take(built as int),
            ));
        }
        assert(fe_request.tokens@.take(count as int) =~= fe_request.tokens@);
        Ok(transactions)
    }

    /// Whether the payment of `amount` observed at `submission_time` is to be
    /// answered by fulfilling `request`: the request exists, has not been
    /// fulfilled, is still valid and costs exactly `amount`.
    pub fn check_request(
        &self,
        amount: Amount,
        submission_time: Timestamp,
        request: Option<ForcedExitRequest>,
    ) -> (fulfil: bool)
        ensures
            fulfil == (request matches Some(found) && is_due(amount@, submission_time, found@)),
    {
        match request {
            Some(found) => self.check_found_request(&amount, submission_time, &found),
            None => false,
        }
    }

    /// [`Self::check_request`] on a request that the storage holds.
    pub fn check_found_request(
        &self,
        amount: &Amount,
        submission_time: Timestamp,
        request: &ForcedExitRequest,
    ) -> (fulfil: bool)
        ensures
            fulfil == is_due(amount@, submission_time, request@),
    {
        if request.fulfilled_at.is_some() {
            return false;
        }
        submission_time.before(&request.valid_until) && request.price_in_wei.is_equal(amount)
    }
}

} // verus!
