//! The typed value bridge: SQL column types, SQL column values, and
//! the compatibility and conversion rules between them.

use vstd::prelude::*;

use crate::{Error, Result};

verus! {

/// The type of a database column.
#[derive(Clone, Copy, Debug, PartialEq, Eq, Structural)]
pub enum SqlType {
    /// A boolean column.
    Bool,
    /// A 32-bit integer column.
    Int,
    /// A 64-bit integer column.
    BigInt,
    /// A text column.
    Text,
    /// A binary blob column.
    Blob,
}

/// A value held by a database column, the interchange representation
/// between native values and the backend.
#[derive(Debug)]
pub enum SqlVal {
    /// The SQL null value.
    Null,
    /// A boolean value.
    Bool(bool),
    /// A 32-bit integer value.
    Int(i32),
    /// A 64-bit integer value.
    BigInt(i64),
    /// A text value.
    Text(String),
    /// A binary blob value.
    Blob(Vec<u8>),
}

/// The mathematical model of a [`SqlVal`]: the same variants with the
/// text and blob payloads abstracted to sequences.
pub enum SqlValView {
    /// The SQL null value.
    Null,
    /// A boolean value.
    Bool(bool),
    /// A 32-bit integer value.
    Int(i32),
    /// A 64-bit integer value.
    BigInt(i64),
    /// A text value.
    Text(Seq<char>),
    /// A binary blob value.
    Blob(Seq<u8>),
}

impl SqlValView {
    /// The compatibility rule of the value bridge: a value is
    /// acceptable for a declared column type when its own type is
    /// identical, when it is a 32-bit integer offered to a 64-bit
    /// integer column (the one allowed widening), or when it is null
    /// and nulls are allowed.
    pub open spec fn compatible(self, ty: SqlType, null_allowed: bool) -> bool {
        match self {
            SqlValView::Null => null_allowed,
            SqlValView::Bool(_) => ty == SqlType::Bool,
            SqlValView::Int(_) => ty == SqlType::Int || ty == SqlType::BigInt,
            SqlValView::BigInt(_) => ty == SqlType::BigInt,
            SqlValView::Text(_) => ty == SqlType::Text,
            SqlValView::Blob(_) => ty == SqlType::Blob,
        }
    }
}

/// The models of a sequence of column values.
pub open spec fn cell_views(v: Seq<SqlVal>) -> Seq<SqlValView> {
    v.map(|i: int, x: SqlVal| x@)
}

impl View for SqlVal {
    type V = SqlValView;

    open spec fn view(&self) -> SqlValView {
        match self {
            SqlVal::Null => SqlValView::Null,
            SqlVal::Bool(b) => SqlValView::Bool(*b),
            SqlVal::Int(n) => SqlValView::Int(*n),
            SqlVal::BigInt(n) => SqlValView::BigInt(*n),
            SqlVal::Text(s) => SqlValView::Text(s@),
            SqlVal::Blob(b) => SqlValView::Blob(b@),
        }
    }
}

impl SqlVal {
    /// Decides whether this value may be stored in, or read as, a
    /// column of the declared type.
    pub fn is_compatible(&self, ty: &SqlType, null_allowed: bool) -> (r: bool)
        ensures
            r == self@.compatible(*ty, null_allowed),
    {
        match self {
            SqlVal::Null => null_allowed,
            SqlVal::Bool(_) => *ty == SqlType::Bool,
            SqlVal::Int(_) => *ty == SqlType::Int || *ty == SqlType::BigInt,
            SqlVal::BigInt(_) => *ty == SqlType::BigInt,
            SqlVal::Text(_) => *ty == SqlType::Text,
            SqlVal::Blob(_) => *ty == SqlType::Blob,
        }
    }

    /// Returns the boolean carried by this value, or reports that the
    /// value is not a boolean.
    pub fn as_bool(&self) -> (r: Result<bool>)
        ensures
            match r {
                Ok(b) => self@ == SqlValView::Bool(b),
                Err(e) => !(self@ matches SqlValView::Bool(_)) && (e matches
                Error::CannotConvertSqlVal(t, v) && t == SqlType::Bool && v@ == self@),
            },
    {
        match self {
            SqlVal::Bool(b) => Ok(*b),
            _ => Err(Error::CannotConvertSqlVal(SqlType::Bool, self.clone())),
        }
    }

    /// Returns the 32-bit integer carried by this value, or reports
    /// that the value is not one.
    pub fn as_int(&self) -> (r: Result<i32>)
        ensures
            match r {
                Ok(n) => self@ == SqlValView::Int(n),
                Err(e) => !(self@ matches SqlValView::Int(_)) && (e matches
                Error::CannotConvertSqlVal(t, v) && t == SqlType::Int && v@ == self@),
            },
    {
        match self {
            SqlVal::Int(n) => Ok(*n),
            _ => Err(Error::CannotConvertSqlVal(SqlType::Int, self.clone())),
        }
    }

    /// Returns this value as a 64-bit integer. A 32-bit integer widens
    /// losslessly, per the compatibility rule.
    pub fn as_big_int(&self) -> (r: Result<i64>)
        ensures
            match r {
                Ok(n) => self@ == SqlValView::BigInt(n) || (self@ matches SqlValView::Int(x)
                    && x as int == n as int),
                Err(e) => !self@.compatible(SqlType::BigInt, false) && (e matches
                Error::CannotConvertSqlVal(t, v) && t == SqlType::BigInt && v@ == self@),
            },
    {
        match self {
            SqlVal::BigInt(n) => Ok(*n),
            SqlVal::Int(n) => Ok(*n as i64),
            _ => Err(Error::CannotConvertSqlVal(SqlType::BigInt, self.clone())),
        }
    }

    /// Returns the text carried by this value, or reports that the
    /// value is not text.
    pub fn as_text(&self) -> (r: Result<&String>)
        ensures
            match r {
                Ok(s) => self@ == SqlValView::Text(s@),
                Err(e) => !(self@ matches SqlValView::Text(_)) && (e matches
                Error::CannotConvertSqlVal(t, v) && t == SqlType::Text && v@ == self@),
            },
    {
        match self {
            SqlVal::Text(s) => Ok(s),
            _ => Err(Error::CannotConvertSqlVal(SqlType::Text, self.clone())),
        }
    }

    /// Returns the blob carried by this value, or reports that the
    /// value is not a blob.
    pub fn as_blob(&self) -> (r: Result<&Vec<u8>>)
        ensures
            match r {
                Ok(b) => self@ == SqlValView::Blob(b@),
                Err(e) => !(self@ matches SqlValView::Blob(_)) && (e matches
                Error::CannotConvertSqlVal(t, v) && t == SqlType::Blob && v@ == self@),
            },
    {
        match self {
            SqlVal::Blob(b) => Ok(b),
            _ => Err(Error::CannotConvertSqlVal(SqlType::Blob, self.clone())),
        }
    }
}

impl Clone for SqlVal {
    /// Duplicates the value; the copy has the same model.
    fn clone(&self) -> (r: Self)
        ensures
            r@ == self@,
    {
        match self {
            SqlVal::Null => SqlVal::Null,
            SqlVal::Bool(b) => SqlVal::Bool(*b),
            SqlVal::Int(n) => SqlVal::Int(*n),
            SqlVal::BigInt(n) => SqlVal::BigInt(*n),
            SqlVal::Text(s) => SqlVal::Text(s.clone()),
            SqlVal::Blob(b) => {
                let mut copy: Vec<u8> = Vec::new();
                let mut i: usize = 0;
                while i < b.len()
                    invariant
                        i <= b.len(),
                        copy@ == b@.subrange(0, i as int),
                    decreases b.len() - i,
                {
                    copy.push(b[i]);
                    i = i + 1;
                }
                proof {
                    assert(copy@ == b@);
                }
                SqlVal::Blob(copy)
            },
        }
    }
}

impl PartialEq for SqlVal {
    /// Deep equality on column values: equality of the models.
    fn eq(&self, other: &Self) -> (r: bool) {
        match (self, other) {
            (SqlVal::Null, SqlVal::Null) => true,
            (SqlVal::Bool(a), SqlVal::Bool(b)) => *a == *b,
            (SqlVal::Int(a), SqlVal::Int(b)) => *a == *b,
            (SqlVal::BigInt(a), SqlVal::BigInt(b)) => *a == *b,
            (SqlVal::Text(a), SqlVal::Text(b)) => *a == *b,
            (SqlVal::Blob(a), SqlVal::Blob(b)) => {
                if a.len() != b.len() {
                    false
                } else {
                    let mut i: usize = 0;
                    let mut same = true;
                    while i < a.len()
                        invariant
                            i <= a.len(),
                            a@.len() == b@.len(),
                            same == (forall|j: int| 0 <= j < i ==> a@[j] == b@[j]),
                        decreases a.len() - i,
                    {
                        if a[i] != b[i] {
                            same = false;
                        }
                        i = i + 1;
                    }
                    proof {
                        if same {
                            assert(a@ =~= b@);
                        }
                    }
                    same
                }
            },
            _ => false,
        }
    }
}

impl vstd::std_specs::cmp::PartialEqSpecImpl for SqlVal {
    open spec fn obeys_eq_spec() -> bool {
        true
    }

    open spec fn eq_spec(&self, other: &SqlVal) -> bool {
        self@ == other@
    }
}

impl Eq for SqlVal {

}

} // verus!
