//! The failures that registry operations report.

use vstd::prelude::*;
use vstd::string::StringExecFns;

verus! {

/// Why a create, load or read did not produce a key.
#[derive(Debug, PartialEq, Eq)]
pub enum LoadingError {
    /// No row carries the requested name.
    NameNotFound,
    /// A row with the requested name already exists; it was left untouched.
    NameCollision,
    /// The stored bytes are not the encoding of a private scalar.
    KeyFailedLoad,
    /// The persistent store itself failed.
    StoreError { message: String },
}

/// Why a delete did not remove a key.
#[derive(Debug, PartialEq, Eq)]
pub enum DeletionError {
    /// The re-entered text did not confirm the name; nothing was removed.
    NameNotConfirmed { name: String },
    /// The persistent store itself failed.
    StoreError { message: String },
}

impl Clone for LoadingError {
    fn clone(&self) -> (copy: LoadingError)
        ensures
            copy == *self,
    {
        match self {
            LoadingError::NameNotFound => LoadingError::NameNotFound,
            LoadingError::NameCollision => LoadingError::NameCollision,
            LoadingError::KeyFailedLoad => LoadingError::KeyFailedLoad,
            LoadingError::StoreError { message } => LoadingError::StoreError {
                message: message.clone(),
            },
        }
    }
}

impl Clone for DeletionError {
    fn clone(&self) -> (copy: DeletionError)
        ensures
            copy == *self,
    {
        match self {
            DeletionError::NameNotConfirmed { name } => DeletionError::NameNotConfirmed {
                name: name.clone(),
            },
            DeletionError::StoreError { message } => DeletionError::StoreError {
                message: message.clone(),
            },
        }
    }
}

impl LoadingError {
    /// The text shown to the user for this failure.
    pub open spec fn message_text(self) -> Seq<char> {
        match self {
            LoadingError::NameNotFound => "key is not present in the database"@,
            LoadingError::NameCollision => "a key with this name is already present in the database"@,
            LoadingError::KeyFailedLoad =>
                "key is not properly formatted in the database, erase the entry and attempt to restore"@,
            LoadingError::StoreError { message } => message@,
        }
    }

    /// Renders the failure for the user. A corrupt key comes with the remedy:
    /// erase the entry and restore it.
    pub fn message(&self) -> (text: String)
        ensures
            text@ == self.message_text(),
    {
        match self {
            LoadingError::NameNotFound => String::from_str("key is not present in the database"),
            LoadingError::NameCollision => String::from_str(
                "a key with this name is already present in the database",
            ),
            LoadingError::KeyFailedLoad => String::from_str(
                "key is not properly formatted in the database, erase the entry and attempt to restore",
            ),
            LoadingError::StoreError { message } => message.clone(),
        }
    }
}

impl DeletionError {
    /// The text shown to the user for this failure.
    pub open spec fn message_text(self) -> Seq<char> {
        match self {
            DeletionError::NameNotConfirmed { name } => "failed to confirm '"@ + name@ + "'"@,
            DeletionError::StoreError { message } => message@,
        }
    }

    /// Renders the failure for the user.
    pub fn message(&self) -> (text: String)
        ensures
            text@ == self.message_text(),
    {
        match self {
            DeletionError::NameNotConfirmed { name } => {
                let mut text = String::from_str("failed to confirm '");
                text.append(name.as_str());
                text.append("'");
                text
            },
            DeletionError::StoreError { message } => message.clone(),
        }
    }
}

} // verus!
