//! Expense records: the one a client sends and the one that is stored.

use vstd::prelude::*;
use chrono::{NaiveDate, NaiveDateTime};
use rust_decimal::Decimal;
use crate::models::UserId;
use crate::trusted::{clock_naive_utc, date_of, uuid_fresh};

verus! {

/// An optional text, as contracts see it.
pub open spec fn view_note(note: Option<String>) -> Option<Seq<char>> {
    match note {
        Some(text) => Some(text@),
        None => None,
    }
}

/// The identity of an expense: the 128 bits of a UUID.
#[derive(Clone, Copy, Debug, PartialEq, Eq, Structural)]
pub struct ExpenseId {
    pub bits: u128,
}

/// A stored expense.
#[derive(Debug, PartialEq, Eq)]
pub struct Expense {
    pub id: ExpenseId,
    pub user_id: UserId,
    pub item_name: String,
    pub amount: Decimal,
    pub date: NaiveDate,
    pub description: Option<String>,
    pub created_at: NaiveDateTime,
    pub updated_at: NaiveDateTime,
}

/// An `Expense` as contracts see it.
pub struct ExpenseView {
    pub id: ExpenseId,
    pub user_id: UserId,
    pub item_name: Seq<char>,
    pub amount: Decimal,
    pub date: NaiveDate,
    pub description: Option<Seq<char>>,
    pub created_at: NaiveDateTime,
    pub updated_at: NaiveDateTime,
}

impl View for Expense {
    type V = ExpenseView;

    open spec fn view(&self) -> ExpenseView {
        ExpenseView {
            id: self.id,
            user_id: self.user_id,
            item_name: self.item_name@,
            amount: self.amount,
            date: self.date,
            description: view_note(self.description),
            created_at: self.created_at,
            updated_at: self.updated_at,
        }
    }
}

/// An expense as a client sends it.
#[derive(Debug, PartialEq, Eq)]
pub struct NewExpense {
    pub user_id: UserId,
    pub item_name: String,
    pub amount: Decimal,
    pub description: Option<String>,
}

/// A `NewExpense` as contracts see it.
pub struct NewExpenseView {
    pub user_id: UserId,
    pub item_name: Seq<char>,
    pub amount: Decimal,
    pub description: Option<Seq<char>>,
}

impl View for NewExpense {
    type V = NewExpenseView;

    open spec fn view(&self) -> NewExpenseView {
        NewExpenseView {
            user_id: self.user_id,
            item_name: self.item_name@,
            amount: self.amount,
            description: view_note(self.description),
        }
    }
}

impl NewExpenseView {
    /// The stored record of this expense under the identity `id`, dated
    /// `date`, created and last updated at `now`.
    pub open spec fn recorded(self, id: ExpenseId, date: NaiveDate, now: NaiveDateTime) -> ExpenseView {
        ExpenseView {
            id,
            user_id: self.user_id,
            item_name: self.item_name,
            amount: self.amount,
            date,
            description: self.description,
            created_at: now,
            updated_at: now,
        }
    }
}

impl NewExpense {
    /// The record to store for this expense: what the client sent, under an
    /// identity drawn at random, dated today and stamped with the current
    /// time.
    pub fn into_expense(self) -> (expense: Expense)
        ensures
            expense@ == self@.recorded(expense.id, expense.date, expense.created_at),
    {
        let now = clock_naive_utc();
        let id = ExpenseId { bits: uuid_fresh() };
        self.record(id, date_of(now), now)
    }

    /// The record to store for this expense under the identity `id`, dated
    /// `date`, created and last updated at `now`.
    pub fn record(self, id: ExpenseId, date: NaiveDate, now: NaiveDateTime) -> (expense: Expense)
        ensures
            expense@ == self@.recorded(id, date, now),
    {
        Expense {
            id,
            user_id: self.user_id,
            item_name: self.item_name,
            amount: self.amount,
            date,
            description: self.description,
            created_at: now,
            updated_at: now,
        }
    }
}

} // verus!
