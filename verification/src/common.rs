//! Device descriptions, the text buffers backing them, and the error channel.

use vstd::prelude::*;
use vstd::string::StrSliceExecFns;
use vstd::string::StringSliceAdditionalSpecFns;

verus! {

/// The ways an operation of this crate can fail. Each is reported
/// synchronously to the immediate caller; none is fatal. Control operations
/// and destruction are infallible by contract and report nothing.
#[derive(Debug)]
pub enum DeviceError {
    /// A text field handed to `InputtinoDeviceDefinition::new` holds an
    /// embedded null terminator and cannot back a C string.
    InvalidString,
    /// The native creation call returned the null sentinel. The message was
    /// taken from the error channel, or is empty when the channel stayed
    /// silent.
    CreationFailed(String),
    /// The native enumeration call returned a null array.
    EnumerationFailed,
}

/// An owned text buffer shaped as the native side expects it: the text's
/// bytes followed by a single null terminator, with no null byte anywhere
/// else. The buffer is immutable after construction, so a borrowed view of
/// it stays valid for as long as the owning value is alive.
pub struct CText {
    bytes: Vec<u8>,
}

impl CText {
    /// The buffer holds at least the terminator, ends in it, and holds no
    /// other null byte.
    #[verifier::type_invariant]
    closed spec fn wf(self) -> bool {
        &&& self.bytes@.len() >= 1
        &&& self.bytes@.last() == 0u8
        &&& forall|i: int| 0 <= i < self.bytes@.len() - 1 ==> self.bytes@[i] != 0u8
    }

    /// The text content, without the terminator.
    pub closed spec fn content(self) -> Seq<u8> {
        self.bytes@.take(self.bytes@.len() - 1)
    }

    /// Builds the buffer backing `text`. Fails with `InvalidString` exactly
    /// when the text's byte encoding holds an embedded null terminator.
    pub fn new(text: &str) -> (r: Result<CText, DeviceError>)
        ensures
            match r {
                Ok(c) => !text.spec_bytes().contains(0u8) && c.content() == text.spec_bytes(),
                Err(e) => text.spec_bytes().contains(0u8) && e == DeviceError::InvalidString,
            },
    {
        let bytes: Vec<u8> = text.as_bytes_vec();
        let mut i: usize = 0;
        while i < bytes.len()
            invariant
                i <= bytes@.len(),
                bytes@ == text.spec_bytes(),
                forall|j: int| 0 <= j < i ==> bytes@[j] != 0u8,
            decreases bytes@.len() - i,
        {
            if bytes[i] == 0 {
                assert(text.spec_bytes()[i as int] == 0u8);
                return Err(DeviceError::InvalidString);
            }
            i += 1;
        }
        let mut buffer = bytes;
        buffer.push(0);
        let c = CText { bytes: buffer };
        assert(c.content() =~= text.spec_bytes());
        Ok(c)
    }

    /// The whole backing buffer: the content followed by the terminator.
    /// This is the view the unverified shell hands to the native side.
    pub fn buffer(&self) -> (b: &Vec<u8>)
        ensures
            b@ == self.content().push(0u8),
    {
        proof {
            use_type_invariant(self);
            assert(self.bytes@ =~= self.content().push(0u8));
        }
        &self.bytes
    }
}

/// An immutable bundle of the identity fields of one virtual device,
/// owning the buffers that back its text fields. A device handle takes
/// ownership of its description on creation, so the buffers outlive every
/// borrowed view the native side may retain.
pub struct InputtinoDeviceDefinition {
    name: CText,
    phys: CText,
    uniq: CText,
    vendor_id: u16,
    product_id: u16,
    version: u16,
}

impl InputtinoDeviceDefinition {
    /// The display name's bytes, without the terminator.
    pub closed spec fn spec_name(self) -> Seq<u8> {
        self.name.content()
    }

    /// The physical-path field's bytes, without the terminator.
    pub closed spec fn spec_phys(self) -> Seq<u8> {
        self.phys.content()
    }

    /// The unique-id field's bytes, without the terminator.
    pub closed spec fn spec_uniq(self) -> Seq<u8> {
        self.uniq.content()
    }

    pub closed spec fn spec_vendor_id(self) -> u16 {
        self.vendor_id
    }

    pub closed spec fn spec_product_id(self) -> u16 {
        self.product_id
    }

    pub closed spec fn spec_version(self) -> u16 {
        self.version
    }

    /// Builds a description. Fails with `InvalidString` exactly when one of
    /// the text fields holds an embedded null terminator; on success every
    /// field is carried over unchanged. No other call of this crate accepts
    /// a description that was not built here, so a device is never created
    /// from text the native side could misread.
    pub fn new(
        name: &str,
        vendor_id: u16,
        product_id: u16,
        version: u16,
        phys: &str,
        uniq: &str,
    ) -> (r: Result<InputtinoDeviceDefinition, DeviceError>)
        ensures
            match r {
                Ok(d) => {
                    &&& !name.spec_bytes().contains(0u8)
                    &&& !phys.spec_bytes().contains(0u8)
                    &&& !uniq.spec_bytes().contains(0u8)
                    &&& d.spec_name() == name.spec_bytes()
                    &&& d.spec_phys() == phys.spec_bytes()
                    &&& d.spec_uniq() == uniq.spec_bytes()
                    &&& d.spec_vendor_id() == vendor_id
                    &&& d.spec_product_id() == product_id
                    &&& d.spec_version() == version
                },
                Err(e) => {
                    &&& (name.spec_bytes().contains(0u8) || phys.spec_bytes().contains(0u8)
                        || uniq.spec_bytes().contains(0u8))
                    &&& e == DeviceError::InvalidString
                },
            },
    {
        let name = match CText::new(name) {
            Ok(c) => c,
            Err(e) => { return Err(e); },
        };
        let phys = match CText::new(phys) {
            Ok(c) => c,
            Err(e) => { return Err(e); },
        };
        let uniq = match CText::new(uniq) {
            Ok(c) => c,
            Err(e) => { return Err(e); },
        };
        Ok(InputtinoDeviceDefinition { name, phys, uniq, vendor_id, product_id, version })
    }

    /// The null-terminated buffer backing the display name.
    pub fn name_buffer(&self) -> (b: &Vec<u8>)
        ensures
            b@ == self.spec_name().push(0u8),
    {
        self.name.buffer()
    }

    /// The null-terminated buffer backing the physical path.
    pub fn phys_buffer(&self) -> (b: &Vec<u8>)
        ensures
            b@ == self.spec_phys().push(0u8),
    {
        self.phys.buffer()
    }

    /// The null-terminated buffer backing the unique id.
    pub fn uniq_buffer(&self) -> (b: &Vec<u8>)
        ensures
            b@ == self.spec_uniq().push(0u8),
    {
        self.uniq.buffer()
    }

    pub fn vendor_id(&self) -> (v: u16)
        ensures
            v == self.spec_vendor_id(),
    {
        self.vendor_id
    }

    pub fn product_id(&self) -> (v: u16)
        ensures
            v == self.spec_product_id(),
    {
        self.product_id
    }

    pub fn version(&self) -> (v: u16)
        ensures
            v == self.spec_version(),
    {
        self.version
    }
}

/// The destination slot of the error channel: a single-shot mailbox that a
/// fallible native call may fill with a message. One slot serves exactly one
/// call; the creation logic consumes the slot when it reads the outcome, so
/// a slot can never be reused across calls.
pub struct ErrorSlot {
    message: Option<String>,
}

impl ErrorSlot {
    /// `Some` of the stored message once the native side has reported a
    /// failure through the channel, `None` before.
    pub closed spec fn spec_message(self) -> Option<Seq<char>> {
        match self.message {
            Some(m) => Some(m@),
            None => None,
        }
    }

    /// The text a failing call reports: the stored message, or the empty
    /// text when the channel stayed silent.
    pub open spec fn spec_text(self) -> Seq<char> {
        match self.spec_message() {
            Some(t) => t,
            None => Seq::<char>::empty(),
        }
    }

    /// A fresh, empty slot for one fallible call.
    pub fn empty() -> (s: ErrorSlot)
        ensures
            s.spec_message() is None,
    {
        ErrorSlot { message: None }
    }

    /// Stores the message the native side delivered. The shell's raw error
    /// callback forwards here, copying the native text before the native
    /// side reclaims it.
    pub fn store(&mut self, message: String)
        ensures
            final(self).spec_message() == Some(message@),
    {
        self.message = Some(message);
    }

    /// Consumes the slot and yields its message, or the empty text when the
    /// channel stayed silent.
    pub fn into_message(self) -> (m: String)
        ensures
            match self.spec_message() {
                Some(t) => m@ == t,
                None => m@ == Seq::<char>::empty(),
            },
    {
        match self.message {
            Some(m) => m,
            None => String::new(),
        }
    }
}

} // verus!
