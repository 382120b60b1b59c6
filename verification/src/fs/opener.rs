//! The options with which a file is opened.

use crate::driver::op::OsError;
use crate::driver::op::EINVAL;
use vstd::prelude::*;

verus! {

/// Open for reading only.
pub const O_RDONLY: i32 = 0;

/// Open for writing only.
pub const O_WRONLY: i32 = 1;

/// Open for reading and writing.
pub const O_RDWR: i32 = 2;

/// Create the file if it does not exist.
pub const O_CREAT: i32 = 0o100;

/// Fail if the file exists.
pub const O_EXCL: i32 = 0o200;

/// Truncate the file to length zero.
pub const O_TRUNC: i32 = 0o1000;

/// Write at the end of the file.
pub const O_APPEND: i32 = 0o2000;

/// The options with which a file is opened.
pub struct Opener {
    pub read: bool,
    pub write: bool,
    pub append: bool,
    pub truncate: bool,
    pub create: bool,
    pub create_new: bool,
    /// The permissions of a file that is created.
    pub mode: u32,
}

/// The error for a combination of options that makes no sense.
pub open spec fn invalid() -> OsError {
    OsError { errno: EINVAL }
}

impl Opener {
    /// No option set, and permissions `0o666` for a file that is created.
    pub fn new() -> (opener: Self)
        ensures
            opener == (Opener {
                read: false,
                write: false,
                append: false,
                truncate: false,
                create: false,
                create_new: false,
                mode: 0o666,
            }),
    {
        Opener {
            read: false,
            write: false,
            append: false,
            truncate: false,
            create: false,
            create_new: false,
            mode: 0o666,
        }
    }

    /// Sets the option for read access.
    pub fn read(&mut self, read: bool) -> (opener: &mut Opener)
        ensures
            *opener == (Opener { read, ..*old(self) }),
            *final(self) == *final(opener),
    {
        self.read = read;
        self
    }

    /// Sets the option for write access.
    pub fn write(&mut self, write: bool) -> (opener: &mut Opener)
        ensures
            *opener == (Opener { write, ..*old(self) }),
            *final(self) == *final(opener),
    {
        self.write = write;
        self
    }

    /// Sets the option for writing at the end of the file.
    pub fn append(&mut self, append: bool) -> (opener: &mut Opener)
        ensures
            *opener == (Opener { append, ..*old(self) }),
            *final(self) == *final(opener),
    {
        self.append = append;
        self
    }

    /// Sets the option for truncating the file.
    pub fn truncate(&mut self, truncate: bool) -> (opener: &mut Opener)
        ensures
            *opener == (Opener { truncate, ..*old(self) }),
            *final(self) == *final(opener),
    {
        self.truncate = truncate;
        self
    }

    /// Sets the option for creating the file if it does not exist.
    pub fn create(&mut self, create: bool) -> (opener: &mut Opener)
        ensures
            *opener == (Opener { create, ..*old(self) }),
            *final(self) == *final(opener),
    {
        self.create = create;
        self
    }

    /// Sets the option for creating the file and failing if it exists.
    pub fn create_new(&mut self, create_new: bool) -> (opener: &mut Opener)
        ensures
            *opener == (Opener { create_new, ..*old(self) }),
            *final(self) == *final(opener),
    {
        self.create_new = create_new;
        self
    }

    /// The access flags of the options: appending implies writing, and
    /// options that ask for no access at all are invalid.
    pub open spec fn spec_access_mode(&self) -> Result<i32, OsError> {
        if self.append {
            if self.read {
                Ok(combined(O_RDWR, O_APPEND))
            } else {
                Ok(combined(O_WRONLY, O_APPEND))
            }
        } else if self.read && self.write {
            Ok(O_RDWR)
        } else if self.read {
            Ok(O_RDONLY)
        } else if self.write {
            Ok(O_WRONLY)
        } else {
            Err(invalid())
        }
    }

    /// Whether the options on creation fit the access: without write access
    /// nothing can be truncated or created, and a file that is appended to is
    /// truncated only if it is new.
    pub open spec fn creation_allowed(&self) -> bool {
        if self.append {
            !(self.truncate && !self.create_new)
        } else if self.write {
            true
        } else {
            !(self.truncate || self.create || self.create_new)
        }
    }

    /// The creation flags of the options. A new file is created exclusively,
    /// whatever else is asked for.
    pub open spec fn spec_creation_mode(&self) -> Result<i32, OsError> {
        if !self.creation_allowed() {
            Err(invalid())
        } else if self.create_new {
            Ok(combined(O_CREAT, O_EXCL))
        } else if self.create && self.truncate {
            Ok(combined(O_CREAT, O_TRUNC))
        } else if self.create {
            Ok(O_CREAT)
        } else if self.truncate {
            Ok(O_TRUNC)
        } else {
            Ok(0)
        }
    }

    /// The flags with which the file is opened: the access flags together
    /// with the creation flags.
    pub open spec fn spec_open_flags(&self) -> Result<i32, OsError> {
        match (self.spec_access_mode(), self.spec_creation_mode()) {
            (Ok(access), Ok(creation)) => Ok(combined(access, creation)),
            (Err(e), _) => Err(e),
            (_, Err(e)) => Err(e),
        }
    }

    /// The access flags of the options, or the error for invalid arguments.
    #[verifier::when_used_as_spec(spec_access_mode)]
    pub fn access_mode(&self) -> (flags: Result<i32, OsError>)
        ensures
            flags == self.spec_access_mode(),
    {
        proof {
            lemma_combined();
        }
        match (self.read, self.write, self.append) {
            (true, false, false) => Ok(O_RDONLY),
            (false, true, false) => Ok(O_WRONLY),
            (true, true, false) => Ok(O_RDWR),
            (false, _, true) => Ok(O_WRONLY | O_APPEND),
            (true, _, true) => Ok(O_RDWR | O_APPEND),
            (false, false, false) => Err(OsError::from_raw_os_error(EINVAL)),
        }
    }

    /// The creation flags of the options, or the error for invalid
    /// arguments.
    #[verifier::when_used_as_spec(spec_creation_mode)]
    pub fn creation_mode(&self) -> (flags: Result<i32, OsError>)
        ensures
            flags == self.spec_creation_mode(),
    {
        proof {
            lemma_combined();
        }
        match (self.write, self.append) {
            (true, false) => {},
            (false, false) => {
                if self.truncate || self.create || self.create_new {
                    return Err(OsError::from_raw_os_error(EINVAL));
                }
            },
            (_, true) => {
                if self.truncate && !self.create_new {
                    return Err(OsError::from_raw_os_error(EINVAL));
                }
            },
        }
        Ok(
            match (self.create, self.truncate, self.create_new) {
                (false, false, false) => 0,
                (true, false, false) => O_CREAT,
                (false, true, false) => O_TRUNC,
                (true, true, false) => O_CREAT | O_TRUNC,
                (_, _, true) => O_CREAT | O_EXCL,
            },
        )
    }

    /// The flags with which the file is opened: the access flags together
    /// with the creation flags. Invalid options are refused here, before
    /// anything is submitted to the kernel.
    #[verifier::when_used_as_spec(spec_open_flags)]
    pub fn open_flags(&self) -> (flags: Result<i32, OsError>)
        ensures
            flags == self.spec_open_flags(),
    {
        let access = match self.access_mode() {
            Ok(access) => access,
            Err(e) => {
                return Err(e);
            },
        };
        let creation = match self.creation_mode() {
            Ok(creation) => creation,
            Err(e) => {
                return Err(e);
            },
        };
        proof {
            lemma_combined();
            lemma_open_flags(access, creation);
        }
        Ok(access | creation)
    }
}

/// Two sets of flags taken together. The flags of this module are distinct
/// bits, so that taking them together adds their numbers.
pub open spec fn combined(a: i32, b: i32) -> i32 {
    (a + b) as i32
}

/// The flags that the options combine are distinct bits.
proof fn lemma_combined()
    ensures
        O_WRONLY | O_APPEND == combined(O_WRONLY, O_APPEND),
        O_RDWR | O_APPEND == combined(O_RDWR, O_APPEND),
        O_CREAT | O_EXCL == combined(O_CREAT, O_EXCL),
        O_CREAT | O_TRUNC == combined(O_CREAT, O_TRUNC),
{
    assert(1i32 | 0o2000i32 == 0o2001i32) by (bit_vector);
    assert(2i32 | 0o2000i32 == 0o2002i32) by (bit_vector);
    assert(0o100i32 | 0o200i32 == 0o300i32) by (bit_vector);
    assert(0o100i32 | 0o1000i32 == 0o1100i32) by (bit_vector);
}

/// Access flags and creation flags are distinct bits.
proof fn lemma_open_flags(access: i32, creation: i32)
    by (bit_vector)
    requires
        access == 0 || access == 1 || access == 2 || access == 0o2001 || access == 0o2002,
        creation == 0 || creation == 0o100 || creation == 0o1000 || creation == 0o1100 || creation
            == 0o300,
    ensures
        access | creation == access + creation,
{
}

} // verus!
