//! The names and numbers under which the wire knows the kinds of tensor data
//! and the states of a model.
use crate::text::same_text;
use vstd::prelude::*;

verus! {

/// The kind of the numbers in a tensor.
#[derive(Debug, Clone, Copy, PartialEq, Eq, Hash, Structural)]
pub enum DataType {
    UnknownTensorDataType,
    Bool,
    Int32,
    Int64,
    Uint32,
    Uint64,
    Float32,
    Float64,
}

/// The state that a model reports of itself.
#[derive(Debug, Clone, Copy, PartialEq, Eq, Hash, Structural)]
pub enum Status {
    UnknownStatus,
    Okay,
}

/// The answer to a request for the state of the model.
#[derive(Debug, Clone, Copy, PartialEq, Eq, Structural)]
pub struct StatusResponse {
    /// The number of the state.
    pub status: i32,
}

impl DataType {
    /// The name of the kind on the wire.
    pub open spec fn name_spec(self) -> Seq<char> {
        match self {
            DataType::UnknownTensorDataType => "UNKNOWN_TENSOR_DATA_TYPE"@,
            DataType::Bool => "BOOL"@,
            DataType::Int32 => "INT32"@,
            DataType::Int64 => "INT64"@,
            DataType::Uint32 => "UINT32"@,
            DataType::Uint64 => "UINT64"@,
            DataType::Float32 => "FLOAT32"@,
            DataType::Float64 => "FLOAT64"@,
        }
    }

    /// The kind that goes by `name`, if there is one.
    pub open spec fn named(name: Seq<char>) -> Option<DataType> {
        if name == "UNKNOWN_TENSOR_DATA_TYPE"@ {
            Some(DataType::UnknownTensorDataType)
        } else if name == "BOOL"@ {
            Some(DataType::Bool)
        } else if name == "INT32"@ {
            Some(DataType::Int32)
        } else if name == "INT64"@ {
            Some(DataType::Int64)
        } else if name == "UINT32"@ {
            Some(DataType::Uint32)
        } else if name == "UINT64"@ {
            Some(DataType::Uint64)
        } else if name == "FLOAT32"@ {
            Some(DataType::Float32)
        } else if name == "FLOAT64"@ {
            Some(DataType::Float64)
        } else {
            None
        }
    }

    /// The number of the kind on the wire.
    pub open spec fn number_spec(self) -> i32 {
        match self {
            DataType::UnknownTensorDataType => 0,
            DataType::Bool => 1,
            DataType::Int32 => 2,
            DataType::Int64 => 3,
            DataType::Uint32 => 4,
            DataType::Uint64 => 5,
            DataType::Float32 => 6,
            DataType::Float64 => 7,
        }
    }

    /// The name of the kind on the wire.
    pub fn as_str_name(&self) -> (name: &'static str)
        ensures
            name@ == self.name_spec(),
    {
        match self {
            DataType::UnknownTensorDataType => "UNKNOWN_TENSOR_DATA_TYPE",
            DataType::Bool => "BOOL",
            DataType::Int32 => "INT32",
            DataType::Int64 => "INT64",
            DataType::Uint32 => "UINT32",
            DataType::Uint64 => "UINT64",
            DataType::Float32 => "FLOAT32",
            DataType::Float64 => "FLOAT64",
        }
    }

    /// The kind that goes by the name `value`, if there is one.
    pub fn from_str_name(value: &str) -> (kind: Option<Self>)
        ensures
            kind == Self::named(value@),
    {
        if same_text(value, "UNKNOWN_TENSOR_DATA_TYPE") {
            Some(DataType::UnknownTensorDataType)
        } else if same_text(value, "BOOL") {
            Some(DataType::Bool)
        } else if same_text(value, "INT32") {
            Some(DataType::Int32)
        } else if same_text(value, "INT64") {
            Some(DataType::Int64)
        } else if same_text(value, "UINT32") {
            Some(DataType::Uint32)
        } else if same_text(value, "UINT64") {
            Some(DataType::Uint64)
        } else if same_text(value, "FLOAT32") {
            Some(DataType::Float32)
        } else if same_text(value, "FLOAT64") {
            Some(DataType::Float64)
        } else {
            None
        }
    }

    /// The number of the kind on the wire.
    pub fn number(&self) -> (n: i32)
        ensures
            n == self.number_spec(),
    {
        match self {
            DataType::UnknownTensorDataType => 0,
            DataType::Bool => 1,
            DataType::Int32 => 2,
            DataType::Int64 => 3,
            DataType::Uint32 => 4,
            DataType::Uint64 => 5,
            DataType::Float32 => 6,
            DataType::Float64 => 7,
        }
    }

    /// The kind with the number `n`, if there is one.
    pub fn from_number(n: i32) -> (kind: Option<Self>)
        ensures
            match kind {
                Some(k) => k.number_spec() == n,
                None => n < 0 || n > 7,
            },
    {
        match n {
            0 => Some(DataType::UnknownTensorDataType),
            1 => Some(DataType::Bool),
            2 => Some(DataType::Int32),
            3 => Some(DataType::Int64),
            4 => Some(DataType::Uint32),
            5 => Some(DataType::Uint64),
            6 => Some(DataType::Float32),
            7 => Some(DataType::Float64),
            _ => None,
        }
    }
}

/// Every kind of tensor data is found again by its name.
pub proof fn lemma_data_type_is_found_by_its_name(kind: DataType)
    ensures
        DataType::named(kind.name_spec()) == Some(kind),
{
    reveal_strlit("UNKNOWN_TENSOR_DATA_TYPE");
    reveal_strlit("BOOL");
    reveal_strlit("INT32");
    reveal_strlit("INT64");
    reveal_strlit("UINT32");
    reveal_strlit("UINT64");
    reveal_strlit("FLOAT32");
    reveal_strlit("FLOAT64");
    assert("UNKNOWN_TENSOR_DATA_TYPE"@.len() == 24);
    assert("BOOL"@.len() == 4);
    assert("INT32"@.len() == 5 && "INT32"@[3] == '3');
    assert("INT64"@.len() == 5 && "INT64"@[3] == '6');
    assert("UINT32"@.len() == 6 && "UINT32"@[4] == '3');
    assert("UINT64"@.len() == 6 && "UINT64"@[4] == '6');
    assert("FLOAT32"@.len() == 7 && "FLOAT32"@[5] == '3');
    assert("FLOAT64"@.len() == 7 && "FLOAT64"@[5] == '6');
}

impl Status {
    /// The name of the state on the wire.
    pub open spec fn name_spec(self) -> Seq<char> {
        match self {
            Status::UnknownStatus => "UNKNOWN_STATUS"@,
            Status::Okay => "OK"@,
        }
    }

    /// The state that goes by `name`, if there is one.
    pub open spec fn named(name: Seq<char>) -> Option<Status> {
        if name == "UNKNOWN_STATUS"@ {
            Some(Status::UnknownStatus)
        } else if name == "OK"@ {
            Some(Status::Okay)
        } else {
            None
        }
    }

    /// The number of the state on the wire.
    pub open spec fn number_spec(self) -> i32 {
        match self {
            Status::UnknownStatus => 0,
            Status::Okay => 1,
        }
    }

    /// The name of the state on the wire.
    pub fn as_str_name(&self) -> (name: &'static str)
        ensures
            name@ == self.name_spec(),
    {
        match self {
            Status::UnknownStatus => "UNKNOWN_STATUS",
            Status::Okay => "OK",
        }
    }

    /// The state that goes by the name `value`, if there is one.
    pub fn from_str_name(value: &str) -> (state: Option<Self>)
        ensures
            state == Self::named(value@),
    {
        if same_text(value, "UNKNOWN_STATUS") {
            Some(Status::UnknownStatus)
        } else if same_text(value, "OK") {
            Some(Status::Okay)
        } else {
            None
        }
    }

    /// The number of the state on the wire.
    pub fn number(&self) -> (n: i32)
        ensures
            n == self.number_spec(),
    {
        match self {
            Status::UnknownStatus => 0,
            Status::Okay => 1,
        }
    }
}

/// Every state is found again by its name.
pub proof fn lemma_status_is_found_by_its_name(state: Status)
    ensures
        Status::named(state.name_spec()) == Some(state),
{
    reveal_strlit("UNKNOWN_STATUS");
    reveal_strlit("OK");
    assert("UNKNOWN_STATUS"@.len() == 14);
    assert("OK"@.len() == 2);
}

} // verus!
