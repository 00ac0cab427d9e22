//! Identities of remote objects and the small records that carry them.
use vstd::prelude::*;

verus! {

/// Remote identity of an assistant.
#[derive(Debug)]
pub struct AsstId(pub String);

/// Remote identity of an uploaded file.
#[derive(Debug)]
pub struct FileId(pub String);

/// Remote identity of a conversation thread.
#[derive(Debug)]
pub struct ThreadId(pub String);

impl Clone for AsstId {
    fn clone(&self) -> (r: Self)
        ensures
            r == *self,
    {
        AsstId(self.0.clone())
    }
}

impl Clone for FileId {
    fn clone(&self) -> (r: Self)
        ensures
            r == *self,
    {
        FileId(self.0.clone())
    }
}

impl Clone for ThreadId {
    fn clone(&self) -> (r: Self)
        ensures
            r == *self,
    {
        ThreadId(self.0.clone())
    }
}

/// An assistant as the engine reports it: its name and its remote id.
#[derive(Debug)]
pub struct AsstRef {
    pub name: String,
    pub id: AsstId,
}

impl AsstRef {
    pub fn new(name: &str, id: AsstId) -> (r: AsstRef)
        ensures
            r.name@ == name@,
            r.id == id,
    {
        AsstRef { name: name.to_string(), id }
    }
}

impl Clone for AsstRef {
    fn clone(&self) -> (r: Self)
        ensures
            r == *self,
    {
        AsstRef { name: self.name.clone(), id: self.id.clone() }
    }
}

/// A remote file as the engine reports it: its display name and its id.
#[derive(Debug)]
pub struct FileRef {
    pub name: String,
    pub id: FileId,
}

impl FileRef {
    pub fn new(name: &str, id: FileId) -> (r: FileRef)
        ensures
            r.name@ == name@,
            r.id == id,
    {
        FileRef { name: name.to_string(), id }
    }
}

impl Clone for FileRef {
    fn clone(&self) -> (r: Self)
        ensures
            r == *self,
    {
        FileRef { name: self.name.clone(), id: self.id.clone() }
    }
}

/// What an assistant is created with.
#[derive(Debug)]
pub struct CreateConfig {
    pub name: String,
    pub model: String,
}

impl Clone for CreateConfig {
    fn clone(&self) -> (r: Self)
        ensures
            r == *self,
    {
        CreateConfig { name: self.name.clone(), model: self.model.clone() }
    }
}

/// A conversation: the remote thread that a profile is bound to.
#[derive(Debug)]
pub struct Conv {
    pub thread_id: ThreadId,
}

} // verus!
