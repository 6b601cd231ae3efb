//! The wallet session: four result channels, one per operation kind, plus
//! the last-applied account list and chain id.
//!
//! Each operation is split in two.  The spawn half (`connect`, `sign`,
//! `send`, `call`) validates its inputs synchronously and hands back a
//! request carrying a sender for the matching channel; a background runner
//! performs the provider call and delivers a tagged result on that sender.
//! The poll half (`recv_*`) never blocks: it takes the oldest delivered
//! result, or reports `Empty` (nothing yet), `Closed` (the channel will
//! never produce again), or `Provider` (the call itself failed).
//!
//! Within one channel, results arrive in the order their producing tasks
//! completed, not the order they were spawned: a caller that needs
//! request/response correlation must keep at most one call of a kind in
//! flight.

use vstd::prelude::*;
use vstd::string::StringSliceAdditionalSpecFns;
use crate::addr::Address;
use crate::addr::addr_bytes;
use crate::addr::addr_ok;
use crate::addr::peer_hex;
use crate::addr::peer_hex_of;
use crate::channel::clone_sender;
use crate::channel::try_recv_from;
use crate::errors::ParseError;
use crate::errors::ProviderError;
use crate::errors::RecvError;

verus! {

/// What a finished account-discovery task delivers: the authorized
/// addresses together with the chain id, or the provider's failure.
pub type AccountResult = Result<(Vec<Address>, u64), ProviderError>;

/// What a finished signing task delivers: the 65-byte signature, or the
/// provider's failure.
pub type SignatureResult = Result<Vec<u8>, ProviderError>;

/// What a finished transaction-submission task delivers: the 32-byte
/// transaction hash, or the provider's failure.
pub type TransactionResult = Result<Vec<u8>, ProviderError>;

/// What a finished read-only contract call delivers: the raw output bytes,
/// or the provider's failure.
pub type CallResult = Result<Vec<u8>, ProviderError>;

/// One result channel: both ends, created together exactly once, and a
/// consumer-side mark that the channel was seen closed.
#[verifier::reject_recursive_types(T)]
pub struct Port<T> {
    pub tx: async_channel::Sender<T>,
    pub rx: async_channel::Receiver<T>,
    pub closed: bool,
}

impl<T> Port<T> {
    fn new() -> (p: Port<T>)
        ensures
            !p.closed,
    {
        let (tx, rx) = async_channel::unbounded();
        Port { tx, rx, closed: false }
    }

    /// Non-blocking poll with a terminal `Closed`: once the channel has
    /// been seen closed, every later poll answers `Closed` without
    /// touching the channel again.
    fn poll(&mut self) -> (r: Result<T, RecvError>)
        ensures
            final(self).tx == old(self).tx,
            final(self).rx == old(self).rx,
            old(self).closed ==> r == Err::<T, RecvError>(RecvError::Closed)
                && *final(self) == *old(self),
            (r == Err::<T, RecvError>(RecvError::Closed)) <==> final(self).closed,
            !(r == Err::<T, RecvError>(RecvError::Closed)) ==> *final(self) == *old(self),
            r matches Err(e) ==> (e is Empty || e is Closed),
    {
        if self.closed {
            return Err(RecvError::Closed);
        }
        match try_recv_from(&self.rx) {
            Ok(v) => Ok(v),
            Err(e) => match e {
                RecvError::Closed => {
                    self.closed = true;
                    Err(RecvError::Closed)
                },
                _ => Err(e),
            },
        }
    }
}

/// Routes one polled outcome of a plain result channel: a delivered
/// success is handed on as it is, a delivered provider failure becomes
/// `Provider`, and a channel-level error stands as it is.
pub fn tag_delivery(msg: Result<Result<Vec<u8>, ProviderError>, RecvError>) -> (r: Result<
    Vec<u8>,
    RecvError,
>)
    ensures
        msg is Ok && msg->Ok_0 is Ok ==> r == Ok::<Vec<u8>, RecvError>(msg->Ok_0->Ok_0),
        msg is Ok && msg->Ok_0 is Err ==> r == Err::<Vec<u8>, RecvError>(
            RecvError::Provider(msg->Ok_0->Err_0),
        ),
        msg is Err ==> r == Err::<Vec<u8>, RecvError>(msg->Err_0),
{
    match msg {
        Ok(Ok(v)) => Ok(v),
        Ok(Err(pe)) => Err(RecvError::Provider(pe)),
        Err(e) => Err(e),
    }
}

/// A spawned account-discovery operation: the background runner asks the
/// provider for its accounts and chain id and, as one message, delivers
/// both on `reply`.
pub struct AccountRequest {
    pub reply: async_channel::Sender<AccountResult>,
}

/// A spawned signing operation: the background runner asks the provider to
/// sign `message` under the account `from` and delivers the signature on
/// `reply`.
pub struct SignRequest {
    pub from: Address,
    pub message: String,
    pub reply: async_channel::Sender<SignatureResult>,
}

/// A spawned transaction submission: the background runner hands `data`
/// addressed to `to` to the provider for signing under `from` and
/// broadcast, and delivers the transaction hash on `reply`.
pub struct SendRequest {
    pub from: Address,
    pub to: Address,
    pub data: Vec<u8>,
    pub reply: async_channel::Sender<TransactionResult>,
}

/// A spawned read-only contract call: the background runner calls `to`
/// with `data` and delivers the raw output bytes on `reply`.
pub struct CallRequest {
    pub to: Address,
    pub data: Vec<u8>,
    pub reply: async_channel::Sender<CallResult>,
}

/// The wallet session owned by the host application for the process
/// lifetime.  `accounts` and `chain_id` are mutated only by
/// `recv_account`, and always both together from one delivered result.
pub struct EthWallet {
    pub accounts: Vec<Address>,
    pub chain_id: u64,
    pub account_port: Port<AccountResult>,
    pub signature_port: Port<SignatureResult>,
    pub transaction_port: Port<TransactionResult>,
    pub call_port: Port<CallResult>,
}

impl EthWallet {
    /// Creates the session: no accounts yet, and all four channels fresh.
    pub fn new() -> (w: EthWallet)
        ensures
            w.accounts@.len() == 0,
            w.chain_id == 0,
            !w.account_port.closed,
            !w.signature_port.closed,
            !w.transaction_port.closed,
            !w.call_port.closed,
    {
        EthWallet {
            accounts: Vec::new(),
            chain_id: 0,
            account_port: Port::new(),
            signature_port: Port::new(),
            transaction_port: Port::new(),
            call_port: Port::new(),
        }
    }

    /// Fires account discovery: returns the request a background runner
    /// executes.  No session state changes until a later `recv_account`
    /// consumes the delivered result.
    pub fn connect(&self) -> (r: AccountRequest)
        ensures
            r.reply == self.account_port.tx,
    {
        AccountRequest { reply: clone_sender(&self.account_port.tx) }
    }

    /// Fires a signing operation for `msg` under the account named by the
    /// hex string `account`; a malformed account is reported here and
    /// nothing is spawned.
    pub fn sign(&self, account: &str, msg: String) -> (r: Result<SignRequest, ParseError>)
        ensures
            r is Ok <==> addr_ok(account.spec_bytes()),
            r matches Ok(req) ==> req.from@ == addr_bytes(account.spec_bytes())
                && req.message == msg
                && req.reply == self.signature_port.tx,
            r matches Err(e) ==> e == ParseError::BadAddress,
    {
        let from = Address::parse(account)?;
        Ok(SignRequest { from, message: msg, reply: clone_sender(&self.signature_port.tx) })
    }

    /// Fires a transaction submission of `data` to `to` from the account
    /// named by `from`; a malformed account is reported here and nothing
    /// is spawned.
    pub fn send(&self, from: &str, to: Address, data: Vec<u8>) -> (r: Result<
        SendRequest,
        ParseError,
    >)
        ensures
            r is Ok <==> addr_ok(from.spec_bytes()),
            r matches Ok(req) ==> req.from@ == addr_bytes(from.spec_bytes())
                && req.to == to
                && req.data == data
                && req.reply == self.transaction_port.tx,
            r matches Err(e) ==> e == ParseError::BadAddress,
    {
        let parsed = Address::parse(from)?;
        Ok(SendRequest {
            from: parsed,
            to,
            data,
            reply: clone_sender(&self.transaction_port.tx),
        })
    }

    /// Fires a read-only contract call of `data` against `to`.
    pub fn call(&self, to: Address, data: Vec<u8>) -> (r: CallRequest)
        ensures
            r.to == to,
            r.data == data,
            r.reply == self.call_port.tx,
    {
        CallRequest { to, data, reply: clone_sender(&self.call_port.tx) }
    }

    /// Applies one delivered account-discovery result: a success carrying
    /// at least one account replaces the stored account list and chain id
    /// together by exactly the delivered pair and returns the checksummed
    /// hex of the first delivered account with the delivered chain id; a
    /// success carrying no accounts is reported as a provider failure and
    /// a delivered provider failure is handed on, both leaving the session
    /// unchanged.
    pub fn apply_account_result(&mut self, msg: AccountResult) -> (r: Result<
        (String, u64),
        RecvError,
    >)
        ensures
            final(self).account_port == old(self).account_port,
            final(self).signature_port == old(self).signature_port,
            final(self).transaction_port == old(self).transaction_port,
            final(self).call_port == old(self).call_port,
            msg is Ok && msg->Ok_0.0@.len() > 0 ==> r is Ok
                && final(self).accounts == msg->Ok_0.0
                && final(self).chain_id == msg->Ok_0.1
                && r->Ok_0.1 == msg->Ok_0.1
                && r->Ok_0.0@ == peer_hex_of(msg->Ok_0.0@[0]@),
            msg is Ok && msg->Ok_0.0@.len() == 0 ==> r is Err && r->Err_0 is Provider
                && *final(self) == *old(self),
            msg is Err ==> r == Err::<(String, u64), RecvError>(RecvError::Provider(msg->Err_0))
                && *final(self) == *old(self),
    {
        match msg {
            Ok((addrs, chain)) => {
                if addrs.len() == 0 {
                    Err(RecvError::Provider(ProviderError {
                        message: "account discovery delivered no accounts".to_owned(),
                    }))
                } else {
                    self.accounts = addrs;
                    self.chain_id = chain;
                    let first = peer_hex(&self.accounts[0]);
                    Ok((first, chain))
                }
            },
            Err(pe) => Err(RecvError::Provider(pe)),
        }
    }

    /// Consumes the oldest delivered account-discovery result, if any, and
    /// applies it: the stored account list and chain id are replaced
    /// together by the delivered pair, or neither changes.  Returns the
    /// checksummed hex of the first delivered account with the chain id.
    pub fn recv_account(&mut self) -> (r: Result<(String, u64), RecvError>)
        ensures
            final(self).signature_port == old(self).signature_port,
            final(self).transaction_port == old(self).transaction_port,
            final(self).call_port == old(self).call_port,
            final(self).account_port.tx == old(self).account_port.tx,
            final(self).account_port.rx == old(self).account_port.rx,
            old(self).account_port.closed ==> r == Err::<(String, u64), RecvError>(
                RecvError::Closed,
            ) && *final(self) == *old(self),
            (r == Err::<(String, u64), RecvError>(RecvError::Closed)) <==> final(self).account_port.closed,
            !(r is Ok) ==> final(self).accounts == old(self).accounts && final(self).chain_id
                == old(self).chain_id,
            r matches Ok(p) ==> final(self).chain_id == p.1 && final(self).accounts@.len() > 0
                && p.0@ == peer_hex_of(final(self).accounts@[0]@),
    {
        match self.account_port.poll() {
            Ok(msg) => self.apply_account_result(msg),
            Err(e) => Err(e),
        }
    }

    /// Consumes the oldest delivered signature, if any.  Session state
    /// other than the channel's closed mark never changes.
    pub fn recv_signature(&mut self) -> (r: Result<Vec<u8>, RecvError>)
        ensures
            final(self).accounts == old(self).accounts,
            final(self).chain_id == old(self).chain_id,
            final(self).account_port == old(self).account_port,
            final(self).transaction_port == old(self).transaction_port,
            final(self).call_port == old(self).call_port,
            final(self).signature_port.tx == old(self).signature_port.tx,
            final(self).signature_port.rx == old(self).signature_port.rx,
            old(self).signature_port.closed ==> r == Err::<Vec<u8>, RecvError>(RecvError::Closed)
                && *final(self) == *old(self),
            (r == Err::<Vec<u8>, RecvError>(RecvError::Closed)) <==> final(self).signature_port.closed,
    {
        tag_delivery(self.signature_port.poll())
    }

    /// Consumes the oldest delivered transaction hash, if any.  Session
    /// state other than the channel's closed mark never changes.
    pub fn recv_transaction(&mut self) -> (r: Result<Vec<u8>, RecvError>)
        ensures
            final(self).accounts == old(self).accounts,
            final(self).chain_id == old(self).chain_id,
            final(self).account_port == old(self).account_port,
            final(self).signature_port == old(self).signature_port,
            final(self).call_port == old(self).call_port,
            final(self).transaction_port.tx == old(self).transaction_port.tx,
            final(self).transaction_port.rx == old(self).transaction_port.rx,
            old(self).transaction_port.closed ==> r == Err::<Vec<u8>, RecvError>(
                RecvError::Closed,
            ) && *final(self) == *old(self),
            (r == Err::<Vec<u8>, RecvError>(RecvError::Closed)) <==> final(self).transaction_port.closed,
    {
        tag_delivery(self.transaction_port.poll())
    }

    /// Consumes the oldest delivered contract-call output, if any.
    /// Session state other than the channel's closed mark never changes.
    pub fn recv_call(&mut self) -> (r: Result<Vec<u8>, RecvError>)
        ensures
            final(self).accounts == old(self).accounts,
            final(self).chain_id == old(self).chain_id,
            final(self).account_port == old(self).account_port,
            final(self).signature_port == old(self).signature_port,
            final(self).transaction_port == old(self).transaction_port,
            final(self).call_port.tx == old(self).call_port.tx,
            final(self).call_port.rx == old(self).call_port.rx,
            old(self).call_port.closed ==> r == Err::<Vec<u8>, RecvError>(RecvError::Closed)
                && *final(self) == *old(self),
            (r == Err::<Vec<u8>, RecvError>(RecvError::Closed)) <==> final(self).call_port.closed,
    {
        tag_delivery(self.call_port.poll())
    }
}

} // verus!
