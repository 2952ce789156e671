use vstd::prelude::*;
use vstd::string::*;
use crate::address::Address;
use crate::error::ErrorCode;

verus! {

/// Which way the staker expects the price to move.
#[derive(Clone, Copy, Debug, PartialEq, Eq, Structural)]
pub enum Direction {
    /// The price will be higher at expiry than at the start.
    Long,
    /// The price will be lower at expiry than at the start.
    Short,
}

/// How long a prediction stays open.
#[derive(Clone, Copy, Debug, PartialEq, Eq, Structural)]
pub enum Duration {
    /// Thirty seconds.
    Short,
    /// One minute.
    Medium,
    /// Five minutes.
    Long,
}

/// Where a prediction stands in its life.
#[derive(Clone, Copy, Debug, PartialEq, Eq, Structural)]
pub enum Status {
    /// Staked, and waiting for its expiry and the observed price.
    Open,
    /// The observed price is recorded and the outcome is known.
    Settled,
    /// The winner has been paid.
    Claimed,
}

/// The text that names the long direction.
pub open spec fn long_label() -> Seq<char> {
    seq!['l', 'o', 'n', 'g']
}

/// The text that names the short direction.
pub open spec fn short_label() -> Seq<char> {
    seq!['s', 'h', 'o', 'r', 't']
}

impl Direction {
    /// The direction that `label` names, if it names one.
    pub open spec fn from_label(label: Seq<char>) -> Option<Direction> {
        if label == long_label() {
            Some(Direction::Long)
        } else if label == short_label() {
            Some(Direction::Short)
        } else {
            None
        }
    }

    /// Does a stake in this direction win when the price went from
    /// `start_price` to `end_price`? An unchanged price wins for nobody.
    pub open spec fn wins(self, start_price: u64, end_price: u64) -> bool {
        match self {
            Direction::Long => end_price > start_price,
            Direction::Short => end_price < start_price,
        }
    }

    /// Reads a direction: `long` or `short`, in lower case and nothing else.
    /// Every other text is refused with `InvalidDirection`.
    pub fn parse(label: &str) -> (r: Result<Direction, ErrorCode>)
        ensures
            r == match Direction::from_label(label@) {
                Some(direction) => Ok::<Direction, ErrorCode>(direction),
                None => Err(ErrorCode::InvalidDirection),
            },
    {
        let len: usize = label.unicode_len();
        if len == 4 {
            if label.get_char(0) == 'l' && label.get_char(1) == 'o' && label.get_char(2) == 'n'
                && label.get_char(3) == 'g' {
                assert(label@ =~= long_label());
                return Ok(Direction::Long);
            }
        } else if len == 5 {
            if label.get_char(0) == 's' && label.get_char(1) == 'h' && label.get_char(2) == 'o'
                && label.get_char(3) == 'r' && label.get_char(4) == 't' {
                assert(label@ =~= short_label());
                return Ok(Direction::Short);
            }
        }
        Err(ErrorCode::InvalidDirection)
    }

    /// The outcome of a stake in this direction.
    pub fn is_winning(self, start_price: u64, end_price: u64) -> (r: bool)
        ensures
            r == self.wins(start_price, end_price),
    {
        match self {
            Direction::Long => end_price > start_price,
            Direction::Short => end_price < start_price,
        }
    }
}

impl Duration {
    /// The length of the duration in seconds.
    pub open spec fn seconds(self) -> int {
        match self {
            Duration::Short => 30,
            Duration::Medium => 60,
            Duration::Long => 300,
        }
    }

    /// The duration that lasts `seconds` seconds, if there is one.
    pub open spec fn of_seconds(seconds: int) -> Option<Duration> {
        if seconds == 30 {
            Some(Duration::Short)
        } else if seconds == 60 {
            Some(Duration::Medium)
        } else if seconds == 300 {
            Some(Duration::Long)
        } else {
            None
        }
    }

    /// Reads a duration from its length in seconds: 30, 60 or 300. Every
    /// other length is refused with `InvalidDuration`.
    pub fn from_secs(seconds: u64) -> (r: Result<Duration, ErrorCode>)
        ensures
            r == match Duration::of_seconds(seconds as int) {
                Some(duration) => Ok::<Duration, ErrorCode>(duration),
                None => Err(ErrorCode::InvalidDuration),
            },
    {
        if seconds == 30 {
            Ok(Duration::Short)
        } else if seconds == 60 {
            Ok(Duration::Medium)
        } else if seconds == 300 {
            Ok(Duration::Long)
        } else {
            Err(ErrorCode::InvalidDuration)
        }
    }

    /// The length of the duration in seconds.
    pub fn as_secs(self) -> (seconds: i64)
        ensures
            seconds == self.seconds(),
    {
        match self {
            Duration::Short => 30,
            Duration::Medium => 60,
            Duration::Long => 300,
        }
    }
}

/// One user's stake on one price movement.
#[derive(Clone, Copy, Debug, PartialEq, Eq)]
pub struct PredictionState {
    /// The user who staked and who alone may claim.
    pub owner: Address,
    /// How much is staked: more than nothing.
    pub stake_amount: u64,
    /// The token that is staked.
    pub staked_mint: Address,
    /// The way the owner expects the price to move.
    pub direction: Direction,
    /// When the prediction was opened, in seconds of Unix time.
    pub opened_at: i64,
    /// From when on it can be settled: an allowed duration after `opened_at`.
    pub expires_at: i64,
    /// The price when the prediction was opened.
    pub start_price: u64,
    /// The price observed at settlement; none before.
    pub end_price: Option<u64>,
    /// Where the prediction stands in its life.
    pub status: Status,
    /// Whether the stake won. It means something once the prediction is settled.
    pub outcome: bool,
}

impl PredictionState {
    /// The place of a record before a prediction is written to it. It is no
    /// record: nothing is staked.
    pub open spec fn vacant() -> PredictionState {
        PredictionState {
            owner: Address::zero(),
            stake_amount: 0,
            staked_mint: Address::zero(),
            direction: Direction::Long,
            opened_at: 0,
            expires_at: 0,
            start_price: 0,
            end_price: None,
            status: Status::Open,
            outcome: false,
        }
    }

    /// What holds of every record that the market's operations have made:
    /// a stake, an expiry one allowed duration after the opening, no observed
    /// price while open, the outcome that the observed price gives once it is
    /// there, and no claim on a stake that lost.
    pub open spec fn well_formed(self) -> bool {
        &&& self.stake_amount > 0
        &&& self.expires_at > self.opened_at
        &&& Duration::of_seconds(self.expires_at - self.opened_at) is Some
        &&& self.status == Status::Open ==> self.end_price is None && !self.outcome
        &&& self.status != Status::Open ==> {
            &&& self.end_price matches Some(end_price)
            &&& self.outcome == self.direction.wins(self.start_price, end_price)
        }
        &&& self.status == Status::Claimed ==> self.outcome
    }

    /// A fresh record of a stake opened at `opened_at`.
    pub open spec fn opened(
        owner: Address,
        stake_amount: u64,
        staked_mint: Address,
        direction: Direction,
        duration: Duration,
        start_price: u64,
        opened_at: i64,
    ) -> PredictionState {
        PredictionState {
            owner,
            stake_amount,
            staked_mint,
            direction,
            opened_at,
            expires_at: (opened_at + duration.seconds()) as i64,
            start_price,
            end_price: None,
            status: Status::Open,
            outcome: false,
        }
    }

    /// The record once `end_price` has been observed.
    pub open spec fn settled(self, end_price: u64) -> PredictionState {
        PredictionState {
            end_price: Some(end_price),
            outcome: self.direction.wins(self.start_price, end_price),
            status: Status::Settled,
            ..self
        }
    }

    /// The record once its winner has been paid.
    pub open spec fn claimed(self) -> PredictionState {
        PredictionState { status: Status::Claimed, ..self }
    }
}

impl Default for PredictionState {
    fn default() -> (record: PredictionState)
        ensures
            record == PredictionState::vacant(),
    {
        PredictionState {
            owner: Address::default(),
            stake_amount: 0,
            staked_mint: Address::default(),
            direction: Direction::Long,
            opened_at: 0,
            expires_at: 0,
            start_price: 0,
            end_price: None,
            status: Status::Open,
            outcome: false,
        }
    }
}

} // verus!
