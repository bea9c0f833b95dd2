use vstd::prelude::*;

use crate::errors::ErrorMessage;

verus! {

/// A stored file's record. Times are seconds since the Unix epoch.
#[derive(Debug, Clone)]
pub struct File {
    pub id: u128,
    pub old_file_name: String,
    pub new_file_name: String,
    pub file_type: String,
    pub size_bytes: i64,
    pub extension: String,
    pub created_at: i64,
}

/// A stored name with its extension: `name.ext`.
pub open spec fn full_name(name: Seq<char>, extension: Seq<char>) -> Seq<char> {
    name + "."@ + extension
}

impl File {
    /// The name under which the file lies on disk.
    pub fn get_full_name(&self) -> (r: String)
        ensures
            r@ == full_name(self.new_file_name@, self.extension@),
    {
        let mut s = self.new_file_name.clone();
        s.append(".");
        s.append(self.extension.as_str());
        s
    }
}

/// An uploaded file as it arrives: its name and its bytes so far.
pub struct FormFile {
    pub name: String,
    pub bytes: Vec<u8>,
}

impl FormFile {
    pub fn new(name: String) -> (r: Self)
        ensures
            r.name@ == name@,
            r.bytes@.len() == 0,
    {
        FormFile { name, bytes: Vec::new() }
    }

    /// Appends a received chunk, unless the file would then exceed `max_size`
    /// bytes; then it fails with `FileSizeTooBig(max_size)` and keeps what it had.
    pub fn add_chunk(&mut self, chunk: &[u8], max_size: usize) -> (r: Result<(), ErrorMessage>)
        ensures
            final(self).name == old(self).name,
            old(self).bytes@.len() + chunk@.len() > max_size ==> r == Err::<(), ErrorMessage>(
                ErrorMessage::FileSizeTooBig(max_size),
            ) && final(self).bytes@ == old(self).bytes@,
            old(self).bytes@.len() + chunk@.len() <= max_size ==> r is Ok && final(self).bytes@ == old(self).bytes@
                + chunk@,
    {
        if chunk.len() > max_size || self.bytes.len() > max_size - chunk.len() {
            return Err(ErrorMessage::FileSizeTooBig(max_size));
        }
        self.bytes.extend_from_slice(chunk);
        Ok(())
    }
}

} // verus!
