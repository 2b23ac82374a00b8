use vstd::prelude::*;

verus! {

/// Whether a file may currently be read.
#[derive(Debug, Clone, Copy, PartialEq, Eq, Structural)]
pub enum FileState {
    Open,
    Closed,
}

impl FileState {
    /// The upper-case word shown for a state.
    pub open spec fn spec_label(self) -> Seq<char> {
        match self {
            FileState::Open => "OPEN"@,
            FileState::Closed => "CLOSED"@,
        }
    }

    pub fn label(&self) -> (r: &'static str)
        ensures
            r@ == self.spec_label(),
    {
        match self {
            FileState::Open => "OPEN",
            FileState::Closed => "CLOSED",
        }
    }
}

/// The one way an operation on a file can fail.
#[derive(Debug, Clone, Copy, PartialEq, Eq, Structural)]
pub enum FileError {
    /// The file is not in the state the operation needs (reading a closed file).
    InvalidState,
}

impl FileError {
    pub open spec fn spec_message(self) -> Seq<char> {
        match self {
            FileError::InvalidState => "File must be open for reading"@,
        }
    }

    /// A human-readable description of the error.
    pub fn message(&self) -> (r: String)
        ensures
            r@ == self.spec_message(),
    {
        match self {
            FileError::InvalidState => String::from_str("File must be open for reading"),
        }
    }
}

/// The abstract value of a file.
pub struct FileView {
    pub name: Seq<char>,
    pub data: Seq<u8>,
    pub state: FileState,
}

impl FileView {
    /// A freshly created file: the given name, no data, closed.
    pub open spec fn created(name: Seq<char>) -> FileView {
        FileView { name, data: Seq::empty(), state: FileState::Closed }
    }

    pub open spec fn is_open(self) -> bool {
        self.state == FileState::Open
    }

    /// The same file in the open state.
    pub open spec fn opened(self) -> FileView {
        FileView { name: self.name, data: self.data, state: FileState::Open }
    }

    /// The same file in the closed state.
    pub open spec fn closed(self) -> FileView {
        FileView { name: self.name, data: self.data, state: FileState::Closed }
    }

    /// What reading into a buffer holding `dest` returns, and what the buffer
    /// then holds: the whole payload appended when open, an error and the
    /// buffer untouched when closed.
    pub open spec fn read_outcome(self, dest: Seq<u8>) -> (Result<usize, FileError>, Seq<u8>) {
        if self.is_open() {
            (Ok(self.data.len() as usize), dest + self.data)
        } else {
            (Err(FileError::InvalidState), dest)
        }
    }

    /// The text shown for a file, `f<name,(STATE)>`.
    pub open spec fn display_text(self) -> Seq<char> {
        "f<"@ + self.name + ",("@ + self.state.spec_label() + ")>"@
    }
}

/// A file that lives in memory.
#[derive(Debug)]
pub struct File {
    name: String,
    data: Vec<u8>,
    state: FileState,
}

impl View for File {
    type V = FileView;

    closed spec fn view(&self) -> FileView {
        FileView { name: self.name@, data: self.data@, state: self.state }
    }
}

impl File {
    /// Creates a file with the given name, no data, in the closed state.
    pub fn new(name: &str) -> (f: File)
        ensures
            f@ == FileView::created(name@),
    {
        let f = File { name: name.to_owned(), data: Vec::new(), state: FileState::Closed };
        assert(f.data@ =~= Seq::<u8>::empty());
        f
    }

    /// Appends the whole payload to `save_to` and returns its length, or fails
    /// with `InvalidState`, leaving `save_to` untouched, when the file is closed.
    pub fn read(&self, save_to: &mut Vec<u8>) -> (r: Result<usize, FileError>)
        ensures
            (r, final(save_to)@) == self@.read_outcome(old(save_to)@),
    {
        if self.state != FileState::Open {
            return Err(FileError::InvalidState);
        }
        let mut tmp = self.data.clone();
        assert(tmp@ =~= self.data@);
        let read_length = tmp.len();
        save_to.reserve(read_length);
        save_to.append(&mut tmp);
        Ok(read_length)
    }

    /// Returns the file's length in bytes.
    pub fn len(&self) -> (r: usize)
        ensures
            r as int == self@.data.len(),
    {
        self.data.len()
    }

    /// Returns the file's name.
    pub fn name(&self) -> (r: String)
        ensures
            r@ == self@.name,
    {
        self.name.clone()
    }

    /// Returns the text `f<name,(STATE)>`.
    pub fn display_string(&self) -> (r: String)
        ensures
            r@ == self@.display_text(),
    {
        let mut r = String::from_str("f<");
        r.append(self.name.as_str());
        r.append(",(");
        r.append(self.state.label());
        r.append(")>");
        r
    }
}

/// Moves the file into the open state.
pub fn open(f: File) -> (r: Result<File, FileError>)
    ensures
        r is Ok,
        r->Ok_0@ == f@.opened(),
{
    let mut f = f;
    f.state = FileState::Open;
    Ok(f)
}

/// Moves the file into the closed state.
pub fn close(f: File) -> (r: Result<File, FileError>)
    ensures
        r is Ok,
        r->Ok_0@ == f@.closed(),
{
    let mut f = f;
    f.state = FileState::Closed;
    Ok(f)
}

} // verus!
