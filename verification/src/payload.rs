//! The records that the remote source answers with. The cache carries them
//! unread: only their identity matters to it, so each record has a view that
//! holds its text as sequences of characters, and a `clone` that keeps it.

use vstd::prelude::*;

verus! {

/// One holder of a token: an address and the amount it holds.
#[derive(Debug, PartialEq, Eq)]
pub struct Holder {
    pub address: String,
    pub amount: String,
}

/// The state of one token as the remote source reports it.
#[derive(Debug, PartialEq, Eq)]
pub struct ResultStruct {
    pub tick: String,
    pub max: String,
    pub lim: String,
    pub pre: String,
    pub to: String,
    pub dec: String,
    pub minted: String,
    pub opScoreAdd: String,
    pub opScoreMod: String,
    pub state: String,
    pub hashRev: String,
    pub mtsAdd: String,
    pub holderTotal: Option<String>,
    pub transferTotal: Option<String>,
    pub mintTotal: Option<String>,
    pub holder: Option<Vec<Holder>>,
}

/// A token inquiry's answer: the payload that the cache keeps per key.
#[derive(Debug, PartialEq, Eq)]
pub struct DataStruct {
    pub message: String,
    pub result: Vec<ResultStruct>,
}

/// One token balance of a wallet.
#[derive(Debug, PartialEq, Eq)]
pub struct TokenInfo {
    pub tick: String,
    pub balance: String,
    pub locked: String,
    pub dec: String,
    pub opScoreMod: String,
}

/// A wallet inquiry's answer: one page of token balances.
#[derive(Debug, PartialEq, Eq)]
pub struct HolderData {
    pub message: String,
    pub prev: String,
    pub next: String,
    pub result: Vec<TokenInfo>,
}

pub struct HolderView {
    pub address: Seq<char>,
    pub amount: Seq<char>,
}

pub struct ResultView {
    pub tick: Seq<char>,
    pub max: Seq<char>,
    pub lim: Seq<char>,
    pub pre: Seq<char>,
    pub to: Seq<char>,
    pub dec: Seq<char>,
    pub minted: Seq<char>,
    pub opScoreAdd: Seq<char>,
    pub opScoreMod: Seq<char>,
    pub state: Seq<char>,
    pub hashRev: Seq<char>,
    pub mtsAdd: Seq<char>,
    pub holderTotal: Option<Seq<char>>,
    pub transferTotal: Option<Seq<char>>,
    pub mintTotal: Option<Seq<char>>,
    pub holder: Option<Seq<HolderView>>,
}

pub struct DataView {
    pub message: Seq<char>,
    pub result: Seq<ResultView>,
}

pub struct TokenView {
    pub tick: Seq<char>,
    pub balance: Seq<char>,
    pub locked: Seq<char>,
    pub dec: Seq<char>,
    pub opScoreMod: Seq<char>,
}

pub struct HolderDataView {
    pub message: Seq<char>,
    pub prev: Seq<char>,
    pub next: Seq<char>,
    pub result: Seq<TokenView>,
}

/// The characters of an optional text.
pub open spec fn text_view(value: Option<String>) -> Option<Seq<char>> {
    match value {
        Some(s) => Some(s@),
        None => None,
    }
}

/// The views of a run of holders, in order.
pub open spec fn holders_view(holders: Seq<Holder>) -> Seq<HolderView> {
    Seq::new(holders.len(), |i: int| holders[i]@)
}

/// The views of a run of token states, in order.
pub open spec fn results_view(results: Seq<ResultStruct>) -> Seq<ResultView> {
    Seq::new(results.len(), |i: int| results[i]@)
}

/// The views of a run of balances, in order.
pub open spec fn tokens_view(tokens: Seq<TokenInfo>) -> Seq<TokenView> {
    Seq::new(tokens.len(), |i: int| tokens[i]@)
}

impl View for Holder {
    type V = HolderView;

    open spec fn view(&self) -> HolderView {
        HolderView { address: self.address@, amount: self.amount@ }
    }
}

impl View for ResultStruct {
    type V = ResultView;

    open spec fn view(&self) -> ResultView {
        ResultView {
            tick: self.tick@,
            max: self.max@,
            lim: self.lim@,
            pre: self.pre@,
            to: self.to@,
            dec: self.dec@,
            minted: self.minted@,
            opScoreAdd: self.opScoreAdd@,
            opScoreMod: self.opScoreMod@,
            state: self.state@,
            hashRev: self.hashRev@,
            mtsAdd: self.mtsAdd@,
            holderTotal: text_view(self.holderTotal),
            transferTotal: text_view(self.transferTotal),
            mintTotal: text_view(self.mintTotal),
            holder: match self.holder {
                Some(v) => Some(holders_view(v@)),
                None => None,
            },
        }
    }
}

impl View for DataStruct {
    type V = DataView;

    open spec fn view(&self) -> DataView {
        DataView { message: self.message@, result: results_view(self.result@) }
    }
}

impl View for TokenInfo {
    type V = TokenView;

    open spec fn view(&self) -> TokenView {
        TokenView {
            tick: self.tick@,
            balance: self.balance@,
            locked: self.locked@,
            dec: self.dec@,
            opScoreMod: self.opScoreMod@,
        }
    }
}

impl View for HolderData {
    type V = HolderDataView;

    open spec fn view(&self) -> HolderDataView {
        HolderDataView {
            message: self.message@,
            prev: self.prev@,
            next: self.next@,
            result: tokens_view(self.result@),
        }
    }
}

/// A copy of an optional text.
fn clone_text(value: &Option<String>) -> (copy: Option<String>)
    ensures
        text_view(copy) == text_view(*value),
{
    match value {
        Some(s) => Some(s.clone()),
        None => None,
    }
}

impl Clone for Holder {
    fn clone(&self) -> (copy: Self)
        ensures
            copy@ == self@,
    {
        Holder { address: self.address.clone(), amount: self.amount.clone() }
    }
}

/// A copy of a run of holders.
fn clone_holders(holders: &Vec<Holder>) -> (copy: Vec<Holder>)
    ensures
        holders_view(copy@) == holders_view(holders@),
{
    let mut copy: Vec<Holder> = Vec::new();
    let mut i: usize = 0;
    while i < holders.len()
        invariant
            i <= holders.len(),
            copy.len() == i,
            forall|j: int| 0 <= j < i ==> copy@[j]@ == holders@[j]@,
        decreases holders.len() - i,
    {
        copy.push(holders[i].clone());
        i += 1;
    }
    assert(holders_view(copy@) =~= holders_view(holders@));
    copy
}

impl Clone for ResultStruct {
    fn clone(&self) -> (copy: Self)
        ensures
            copy@ == self@,
    {
        ResultStruct {
            tick: self.tick.clone(),
            max: self.max.clone(),
            lim: self.lim.clone(),
            pre: self.pre.clone(),
            to: self.to.clone(),
            dec: self.dec.clone(),
            minted: self.minted.clone(),
            opScoreAdd: self.opScoreAdd.clone(),
            opScoreMod: self.opScoreMod.clone(),
            state: self.state.clone(),
            hashRev: self.hashRev.clone(),
            mtsAdd: self.mtsAdd.clone(),
            holderTotal: clone_text(&self.holderTotal),
            transferTotal: clone_text(&self.transferTotal),
            mintTotal: clone_text(&self.mintTotal),
            holder: match &self.holder {
                Some(v) => Some(clone_holders(v)),
                None => None,
            },
        }
    }
}

impl Clone for DataStruct {
    fn clone(&self) -> (copy: Self)
        ensures
            copy@ == self@,
    {
        let mut result: Vec<ResultStruct> = Vec::new();
        let mut i: usize = 0;
        while i < self.result.len()
            invariant
                i <= self.result.len(),
                result.len() == i,
                forall|j: int| 0 <= j < i ==> result@[j]@ == self.result@[j]@,
            decreases self.result.len() - i,
        {
            result.push(self.result[i].clone());
            i += 1;
        }
        assert(results_view(result@) =~= results_view(self.result@));
        DataStruct { message: self.message.clone(), result }
    }
}

} // verus!
