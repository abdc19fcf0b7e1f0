//! Primitive identifiers and values of the protocol: coins, keys, hashes,
//! amounts, spends, and the error taxonomy.

use vstd::prelude::*;

verus! {

/// A monetary amount of the joint stake; non-negative.
#[derive(Debug, Clone, Copy, PartialEq, Eq, Structural)]
pub struct Amount(pub u64);

/// A coin timeout, counted by the chain observer.
#[derive(Debug, Clone, Copy, PartialEq, Eq, Structural)]
pub struct Timeout(pub u64);

/// The hash of a coin puzzle; opaque bytes.
#[derive(Debug, PartialEq, Eq)]
pub struct PuzzleHash(pub Vec<u8>);

/// A public key; opaque bytes.
#[derive(Debug, PartialEq, Eq)]
pub struct PublicKey(pub Vec<u8>);

/// A private key; opaque bytes.  Only ever hashed or handed to the signer.
#[derive(Debug, PartialEq, Eq)]
pub struct PrivateKey(pub Vec<u8>);

/// An aggregate signature; opaque bytes.
#[derive(Debug, PartialEq, Eq)]
pub struct Aggsig(pub Vec<u8>);

/// The identifier of a coin on chain.
#[derive(Debug, PartialEq, Eq)]
pub struct CoinID(pub Vec<u8>);

/// A variable-length byte sequence used as an opaque game key; equality by bytes.
#[derive(Debug, PartialEq, Eq)]
pub struct GameID(pub Vec<u8>);

/// A variable-length byte tag identifying a game rule-set.
#[derive(Debug, PartialEq, Eq, PartialOrd, Ord)]
pub struct GameType(pub Vec<u8>);

/// A serialized rule program or other opaque program artifact.
#[derive(Debug, PartialEq, Eq)]
pub struct Program(pub Vec<u8>);

/// An opaque per-game move payload consumed by the game rule puzzle.
#[derive(Debug, PartialEq, Eq)]
pub struct ReadableMove(pub Vec<u8>);

/// The channel handler's digest of a move, sent over the wire.
#[derive(Debug, PartialEq, Eq)]
pub struct MoveResult(pub Vec<u8>);

impl View for Amount {
    type V = u64;

    open spec fn view(&self) -> u64 {
        self.0
    }
}

impl View for Timeout {
    type V = u64;

    open spec fn view(&self) -> u64 {
        self.0
    }
}

impl View for PuzzleHash {
    type V = Seq<u8>;

    open spec fn view(&self) -> Seq<u8> {
        self.0@
    }
}

impl View for PublicKey {
    type V = Seq<u8>;

    open spec fn view(&self) -> Seq<u8> {
        self.0@
    }
}

impl View for PrivateKey {
    type V = Seq<u8>;

    open spec fn view(&self) -> Seq<u8> {
        self.0@
    }
}

impl View for Aggsig {
    type V = Seq<u8>;

    open spec fn view(&self) -> Seq<u8> {
        self.0@
    }
}

impl View for CoinID {
    type V = Seq<u8>;

    open spec fn view(&self) -> Seq<u8> {
        self.0@
    }
}

impl View for GameID {
    type V = Seq<u8>;

    open spec fn view(&self) -> Seq<u8> {
        self.0@
    }
}

impl View for GameType {
    type V = Seq<u8>;

    open spec fn view(&self) -> Seq<u8> {
        self.0@
    }
}

impl View for Program {
    type V = Seq<u8>;

    open spec fn view(&self) -> Seq<u8> {
        self.0@
    }
}

impl View for ReadableMove {
    type V = Seq<u8>;

    open spec fn view(&self) -> Seq<u8> {
        self.0@
    }
}

impl View for MoveResult {
    type V = Seq<u8>;

    open spec fn view(&self) -> Seq<u8> {
        self.0@
    }
}

impl Clone for PuzzleHash {
    fn clone(&self) -> (r: Self)
        ensures
            r@ == self@,
    {
        let r = PuzzleHash(self.0.clone());
        proof {
            assert(r@ =~= self@);
        }
        r
    }
}

impl Clone for PublicKey {
    fn clone(&self) -> (r: Self)
        ensures
            r@ == self@,
    {
        let r = PublicKey(self.0.clone());
        proof {
            assert(r@ =~= self@);
        }
        r
    }
}

impl Clone for PrivateKey {
    fn clone(&self) -> (r: Self)
        ensures
            r@ == self@,
    {
        let r = PrivateKey(self.0.clone());
        proof {
            assert(r@ =~= self@);
        }
        r
    }
}

impl Clone for Aggsig {
    fn clone(&self) -> (r: Self)
        ensures
            r@ == self@,
    {
        let r = Aggsig(self.0.clone());
        proof {
            assert(r@ =~= self@);
        }
        r
    }
}

impl Clone for CoinID {
    fn clone(&self) -> (r: Self)
        ensures
            r@ == self@,
    {
        let r = CoinID(self.0.clone());
        proof {
            assert(r@ =~= self@);
        }
        r
    }
}

impl Clone for GameID {
    fn clone(&self) -> (r: Self)
        ensures
            r@ == self@,
    {
        let r = GameID(self.0.clone());
        proof {
            assert(r@ =~= self@);
        }
        r
    }
}

impl Clone for GameType {
    fn clone(&self) -> (r: Self)
        ensures
            r@ == self@,
    {
        let r = GameType(self.0.clone());
        proof {
            assert(r@ =~= self@);
        }
        r
    }
}

impl Clone for Program {
    fn clone(&self) -> (r: Self)
        ensures
            r@ == self@,
    {
        let r = Program(self.0.clone());
        proof {
            assert(r@ =~= self@);
        }
        r
    }
}

impl Clone for ReadableMove {
    fn clone(&self) -> (r: Self)
        ensures
            r@ == self@,
    {
        let r = ReadableMove(self.0.clone());
        proof {
            assert(r@ =~= self@);
        }
        r
    }
}

impl Clone for MoveResult {
    fn clone(&self) -> (r: Self)
        ensures
            r@ == self@,
    {
        let r = MoveResult(self.0.clone());
        proof {
            assert(r@ =~= self@);
        }
        r
    }
}

impl GameID {
    pub fn from_bytes(bytes: &Vec<u8>) -> (r: GameID)
        ensures
            r@ == bytes@,
    {
        let r = GameID(bytes.clone());
        proof {
            assert(r@ =~= bytes@);
        }
        r
    }
}

/// An on-chain coin reference: (parent id, puzzle hash, amount).
#[derive(Debug, PartialEq, Eq)]
pub struct CoinString {
    pub parent: CoinID,
    pub puzzle_hash: PuzzleHash,
    pub amount: Amount,
}

/// The mathematical value of a `CoinString`.
pub struct CoinStringV {
    pub parent: Seq<u8>,
    pub puzzle_hash: Seq<u8>,
    pub amount: u64,
}

impl View for CoinString {
    type V = CoinStringV;

    open spec fn view(&self) -> CoinStringV {
        CoinStringV { parent: self.parent@, puzzle_hash: self.puzzle_hash@, amount: self.amount@ }
    }
}

impl Clone for CoinString {
    fn clone(&self) -> (r: Self)
        ensures
            r@ == self@,
    {
        CoinString {
            parent: self.parent.clone(),
            puzzle_hash: self.puzzle_hash.clone(),
            amount: self.amount,
        }
    }
}

impl CoinString {
    /// Decompose the coin reference into its parts.
    pub fn to_parts(&self) -> (r: (CoinID, PuzzleHash, Amount))
        ensures
            r.0@ == self@.parent,
            r.1@ == self@.puzzle_hash,
            r.2@ == self@.amount,
    {
        (self.parent.clone(), self.puzzle_hash.clone(), self.amount)
    }
}

/// One spend: a puzzle, its solution, and the signature over them.
#[derive(Debug, PartialEq, Eq)]
pub struct Spend {
    pub puzzle: Program,
    pub solution: Program,
    pub signature: Aggsig,
}

pub struct SpendV {
    pub puzzle: Seq<u8>,
    pub solution: Seq<u8>,
    pub signature: Seq<u8>,
}

impl View for Spend {
    type V = SpendV;

    open spec fn view(&self) -> SpendV {
        SpendV { puzzle: self.puzzle@, solution: self.solution@, signature: self.signature@ }
    }
}

impl Clone for Spend {
    fn clone(&self) -> (r: Self)
        ensures
            r@ == self@,
    {
        Spend {
            puzzle: self.puzzle.clone(),
            solution: self.solution.clone(),
            signature: self.signature.clone(),
        }
    }
}

/// A spend of one named coin.
#[derive(Debug, PartialEq, Eq)]
pub struct CoinSpend {
    pub coin: CoinString,
    pub bundle: Spend,
}

pub struct CoinSpendV {
    pub coin: CoinStringV,
    pub bundle: SpendV,
}

impl View for CoinSpend {
    type V = CoinSpendV;

    open spec fn view(&self) -> CoinSpendV {
        CoinSpendV { coin: self.coin@, bundle: self.bundle@ }
    }
}

impl Clone for CoinSpend {
    fn clone(&self) -> (r: Self)
        ensures
            r@ == self@,
    {
        CoinSpend { coin: self.coin.clone(), bundle: self.bundle.clone() }
    }
}

/// A bundle of coin spends forming one transaction.
#[derive(Debug, PartialEq, Eq)]
pub struct SpendBundle {
    pub spends: Vec<CoinSpend>,
}

pub struct SpendBundleV {
    pub spends: Seq<CoinSpendV>,
}

impl View for SpendBundle {
    type V = SpendBundleV;

    open spec fn view(&self) -> SpendBundleV {
        SpendBundleV { spends: self.spends@.map(|i: int, s: CoinSpend| s@) }
    }
}

impl Clone for SpendBundle {
    fn clone(&self) -> (r: Self)
        ensures
            r@ == self@,
    {
        let mut spends: Vec<CoinSpend> = Vec::new();
        let mut i: usize = 0;
        while i < self.spends.len()
            invariant
                i <= self.spends@.len(),
                spends@.len() == i,
                forall|j: int| 0 <= j < i ==> #[trigger] spends@[j]@ == self.spends@[j]@,
            decreases self.spends@.len() - i,
        {
            spends.push(self.spends[i].clone());
            i = i + 1;
        }
        let r = SpendBundle { spends };
        proof {
            assert(r@.spends =~= self@.spends);
        }
        r
    }
}

/// The signed delta authorizing a channel update; opaque to the coordinator.
#[derive(Debug, PartialEq, Eq)]
pub struct PotatoSignatures {
    pub my_channel_half_signature_peer: Aggsig,
    pub my_unroll_half_signature_peer: Aggsig,
}

pub struct PotatoSignaturesV {
    pub channel_half: Seq<u8>,
    pub unroll_half: Seq<u8>,
}

impl View for PotatoSignatures {
    type V = PotatoSignaturesV;

    open spec fn view(&self) -> PotatoSignaturesV {
        PotatoSignaturesV {
            channel_half: self.my_channel_half_signature_peer@,
            unroll_half: self.my_unroll_half_signature_peer@,
        }
    }
}

impl Clone for PotatoSignatures {
    fn clone(&self) -> (r: Self)
        ensures
            r@ == self@,
    {
        PotatoSignatures {
            my_channel_half_signature_peer: self.my_channel_half_signature_peer.clone(),
            my_unroll_half_signature_peer: self.my_unroll_half_signature_peer.clone(),
        }
    }
}

/// The three private keys one party brings to the channel.
#[derive(Debug, PartialEq, Eq)]
pub struct ChannelHandlerPrivateKeys {
    pub my_channel_coin_private_key: PrivateKey,
    pub my_unroll_coin_private_key: PrivateKey,
    pub my_referee_private_key: PrivateKey,
}

pub struct ChannelHandlerPrivateKeysV {
    pub channel: Seq<u8>,
    pub unroll: Seq<u8>,
    pub referee: Seq<u8>,
}

impl View for ChannelHandlerPrivateKeys {
    type V = ChannelHandlerPrivateKeysV;

    open spec fn view(&self) -> ChannelHandlerPrivateKeysV {
        ChannelHandlerPrivateKeysV {
            channel: self.my_channel_coin_private_key@,
            unroll: self.my_unroll_coin_private_key@,
            referee: self.my_referee_private_key@,
        }
    }
}

impl Clone for ChannelHandlerPrivateKeys {
    fn clone(&self) -> (r: Self)
        ensures
            r@ == self@,
    {
        ChannelHandlerPrivateKeys {
            my_channel_coin_private_key: self.my_channel_coin_private_key.clone(),
            my_unroll_coin_private_key: self.my_unroll_coin_private_key.clone(),
            my_referee_private_key: self.my_referee_private_key.clone(),
        }
    }
}

/// The coordinator's error taxonomy.
///
/// Protocol errors (out-of-order, unexpected, or malformed peer messages)
/// are fatal to the channel; configuration errors leave the channel open
/// and are surfaced to the local caller.
#[derive(Debug, PartialEq, Eq)]
pub enum Error {
    /// A malformed peer frame; a protocol error.
    Decode,
    /// A peer message that is not legal in the current handshake state.
    UnexpectedMessage,
    /// A `StartGames` message arrived with no prior local announcement.
    NoWaitingGames,
    /// A local action was submitted before the handshake finished.
    HandshakeNotFinished,
    /// The requested game type is not in the rule-set table.
    NoSuchGame(GameType),
    /// The factory program's output was not a pair of lists.
    BadFactoryOutput,
    /// The factory's two per-side lists had different lengths.
    MismatchedGameStarts,
    /// An operation needed the channel handler before it was constructed.
    NoChannelHandler,
    /// `parent_coin` was read before the handshake finished.
    NoHandshake,
    /// A game id was requested before the id counter was seeded.
    NoGameIdSeed,
    /// The potato accounting disagreed with the peer; a protocol error.
    PotatoAccounting,
    /// The joint stake did not fit in an amount.
    AmountOverflow,
    /// The rule program could not be read or evaluated.
    Clvm,
    /// A handshake bundle arrived with no spends to draw the channel coin from.
    EmptyBundle,
}

impl Clone for Error {
    fn clone(&self) -> (r: Self)
        ensures
            r == *self || (r is NoSuchGame && self is NoSuchGame),
    {
        match self {
            Error::Decode => Error::Decode,
            Error::UnexpectedMessage => Error::UnexpectedMessage,
            Error::NoWaitingGames => Error::NoWaitingGames,
            Error::HandshakeNotFinished => Error::HandshakeNotFinished,
            Error::NoSuchGame(t) => Error::NoSuchGame(t.clone()),
            Error::BadFactoryOutput => Error::BadFactoryOutput,
            Error::MismatchedGameStarts => Error::MismatchedGameStarts,
            Error::NoChannelHandler => Error::NoChannelHandler,
            Error::NoHandshake => Error::NoHandshake,
            Error::NoGameIdSeed => Error::NoGameIdSeed,
            Error::PotatoAccounting => Error::PotatoAccounting,
            Error::AmountOverflow => Error::AmountOverflow,
            Error::Clvm => Error::Clvm,
            Error::EmptyBundle => Error::EmptyBundle,
        }
    }
}

impl Error {
    /// A short description, in place of a `Display` implementation.
    pub fn message(&self) -> (r: &'static str) {
        match self {
            Error::Decode => "could not decode peer message",
            Error::UnexpectedMessage => "should not receive message in this state",
            Error::NoWaitingGames => "no waiting games to start",
            Error::HandshakeNotFinished => "move without finishing handshake",
            Error::NoSuchGame(_) => "no such game",
            Error::BadFactoryOutput => "bad factory output",
            Error::MismatchedGameStarts => "mismatched my and their game starts",
            Error::NoChannelHandler => "no channel handler",
            Error::NoHandshake => "no handshake yet",
            Error::NoGameIdSeed => "no game id set",
            Error::PotatoAccounting => "potato accounting disagreement",
            Error::AmountOverflow => "joint stake overflows amount",
            Error::Clvm => "rule program evaluation failed",
            Error::EmptyBundle => "no spends to draw the channel coin from",
        }
    }
}

/// Byte-for-byte equality of two byte vectors.
pub fn bytes_eq(a: &Vec<u8>, b: &Vec<u8>) -> (r: bool)
    ensures
        r == (a@ == b@),
{
    if a.len() != b.len() {
        return false;
    }
    let mut i: usize = 0;
    while i < a.len()
        invariant
            a@.len() == b@.len(),
            i <= a@.len(),
            forall|j: int| 0 <= j < i ==> a@[j] == b@[j],
        decreases a@.len() - i,
    {
        if a[i] != b[i] {
            return false;
        }
        i = i + 1;
    }
    proof {
        assert(a@ =~= b@);
    }
    true
}

} // verus!
