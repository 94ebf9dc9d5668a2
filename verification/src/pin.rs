//! Digital outputs as plain values.
//!
//! An [`OutputPin`] stands for one push-pull output and records the level it
//! was last driven to. An [`OutputPinMatrix`] stands for a column-addressed
//! matrix of outputs and records, for every column, the row states that were
//! last written to it.

use vstd::prelude::*;

verus! {

/// The level a digital output is driven to.
#[derive(Clone, Copy, Debug, PartialEq, Eq, Structural)]
pub enum Level {
    Low,
    High,
}

impl Level {
    /// The other level.
    pub open spec fn inverse(self) -> Level {
        match self {
            Level::Low => Level::High,
            Level::High => Level::Low,
        }
    }

    /// `High` for `true`, `Low` for `false`.
    pub open spec fn of(high: bool) -> Level {
        if high {
            Level::High
        } else {
            Level::Low
        }
    }
}

/// A single digital push-pull output pin.
#[derive(Clone, Copy, Debug, PartialEq, Eq)]
pub struct OutputPin {
    level: Level,
}

impl View for OutputPin {
    type V = Level;

    closed spec fn view(&self) -> Level {
        self.level
    }
}

impl OutputPin {
    /// A pin that is currently driven to `level`.
    pub fn new(level: Level) -> (pin: OutputPin)
        ensures
            pin@ == level,
    {
        OutputPin { level }
    }

    /// The level the pin is driven to.
    pub fn level(&self) -> (level: Level)
        ensures
            level == self@,
    {
        self.level
    }

    /// Drives the pin low.
    pub fn set_low(&mut self)
        ensures
            final(self)@ == Level::Low,
    {
        self.level = Level::Low;
    }

    /// Drives the pin high.
    pub fn set_high(&mut self)
        ensures
            final(self)@ == Level::High,
    {
        self.level = Level::High;
    }

    /// Drives the pin high if `high` holds, low if not.
    pub fn drive(&mut self, high: bool)
        ensures
            final(self)@ == Level::of(high),
    {
        if high {
            self.set_high();
        } else {
            self.set_low();
        }
    }
}

/// Why a write to a pin matrix was refused.
#[derive(Clone, Copy, Debug, PartialEq, Eq)]
pub enum Error {
    /// The matrix has no column of that index.
    NoSuchColumn,
}

/// A matrix of outputs that is written one column at a time: `COLUMNS`
/// columns of `ROWS` rows each.
///
/// Its view holds, for each column, the row states last written to it.
#[derive(Clone, Copy, Debug, PartialEq, Eq)]
pub struct OutputPinMatrix<const COLUMNS: usize, const ROWS: usize> {
    columns: [[bool; ROWS]; COLUMNS],
}

impl<const COLUMNS: usize, const ROWS: usize> View for OutputPinMatrix<COLUMNS, ROWS> {
    type V = Seq<Seq<bool>>;

    closed spec fn view(&self) -> Seq<Seq<bool>> {
        Seq::new(COLUMNS as nat, |column: int| self.columns@[column]@)
    }
}

impl<const COLUMNS: usize, const ROWS: usize> OutputPinMatrix<COLUMNS, ROWS> {
    /// A matrix with every row of every column off.
    pub fn new() -> (matrix: Self)
        ensures
            matrix@ == Seq::new(COLUMNS as nat, |column: int| Seq::new(ROWS as nat, |row: int| false)),
    {
        let matrix = OutputPinMatrix { columns: [[false; ROWS]; COLUMNS] };
        assert forall|column: int| 0 <= column < COLUMNS implies matrix@[column] == Seq::new(
            ROWS as nat,
            |row: int| false,
        ) by {
            assert(matrix@[column] =~= Seq::new(ROWS as nat, |row: int| false));
        }
        assert(matrix@ =~= Seq::new(
            COLUMNS as nat,
            |column: int| Seq::new(ROWS as nat, |row: int| false),
        ));
        matrix
    }

    /// Writes all rows of the column `index` at once. A matrix without such
    /// a column refuses the write and stays as it is.
    pub fn set_column(&mut self, index: usize, rows: &[bool; ROWS]) -> (written: Result<(), Error>)
        ensures
            index < COLUMNS ==> written is Ok && final(self)@ == old(self)@.update(
                index as int,
                rows@,
            ),
            index >= COLUMNS ==> written == Err::<(), Error>(Error::NoSuchColumn) && final(self)@
                == old(self)@,
    {
        if index < COLUMNS {
            self.columns[index] = *rows;
            assert(self@ =~= old(self)@.update(index as int, rows@));
            Ok(())
        } else {
            Err(Error::NoSuchColumn)
        }
    }

    /// The row states last written to the column `index`, if there is such
    /// a column.
    pub fn column(&self, index: usize) -> (rows: Option<[bool; ROWS]>)
        ensures
            index < COLUMNS ==> rows is Some && rows.unwrap()@ == self@[index as int],
            index >= COLUMNS ==> rows is None,
    {
        if index < COLUMNS {
            Some(self.columns[index])
        } else {
            None
        }
    }

    /// What the view of every matrix is: `COLUMNS` columns of `ROWS` rows.
    pub proof fn lemma_shape(&self)
        ensures
            self@.len() == COLUMNS,
            forall|column: int| 0 <= column < COLUMNS ==> (#[trigger] self@[column]).len() == ROWS,
    {
    }
}

} // verus!
