//! The frame layout model: fixed-size, fixed-offset ASCII slots composed
//! into the command ("input") and status ("output") frame shapes shared by
//! every hardware module.

use vstd::prelude::*;
use vstd::utf8::is_ascii_chars;
use crate::digits::dec_string;
use crate::digits::append_dec_padded;

verus! {

/// One fixed-size slot of a frame: `size` ASCII characters stored at
/// `[index, index + size)` of the frame string, with its default (or, for
/// command slots, current) content.
pub struct ModuleDataField {
    pub size: usize,
    pub index: usize,
    pub string: String,
}

impl ModuleDataField {
    /// The slot's content has exactly its declared size and is ASCII.
    pub open spec fn wf(&self) -> bool {
        &&& self.string@.len() == self.size
        &&& is_ascii_chars(self.string@)
    }

    pub fn new(size: usize, index: usize, string: String) -> (r: Self)
        ensures
            r.size == size,
            r.index == index,
            r.string == string,
    {
        Self { size, index, string }
    }
}

impl Clone for ModuleDataField {
    fn clone(&self) -> (r: Self)
        ensures
            r == *self,
    {
        ModuleDataField { size: self.size, index: self.index, string: self.string.clone() }
    }
}

/// The shared leading slots of both frame shapes: header tag, package code,
/// setting code and frame-kind code.
pub struct ModuleHead {
    pub header: ModuleDataField,
    pub package: ModuleDataField,
    pub setting: ModuleDataField,
    pub length: ModuleDataField,
}

impl ModuleHead {
    /// The head slots are well formed and packed back to back from the start
    /// of the frame.
    pub open spec fn wf(&self) -> bool {
        &&& self.header.wf()
        &&& self.package.wf()
        &&& self.setting.wf()
        &&& self.length.wf()
        &&& self.header.index == 0
        &&& self.package.index == self.header.size
        &&& self.setting.index == self.package.index + self.package.size
        &&& self.length.index == self.setting.index + self.setting.size
    }

    /// Index one past the last head slot.
    pub open spec fn end_index(&self) -> int {
        self.length.index + self.length.size
    }

    /// The concatenated head content.
    pub open spec fn text(&self) -> Seq<char> {
        self.header.string@ + self.package.string@ + self.setting.string@ + self.length.string@
    }

    pub fn new(
        header: ModuleDataField,
        package: ModuleDataField,
        setting: ModuleDataField,
        length: ModuleDataField,
    ) -> (r: Self)
        ensures
            r.header == header,
            r.package == package,
            r.setting == setting,
            r.length == length,
    {
        Self { header, package, setting, length }
    }
}

impl Clone for ModuleHead {
    fn clone(&self) -> (r: Self)
        ensures
            r == *self,
    {
        ModuleHead {
            header: self.header.clone(),
            package: self.package.clone(),
            setting: self.setting.clone(),
            length: self.length.clone(),
        }
    }
}

/// The trailing slots of both frame shapes: the two-character checksum and
/// the one-character terminator.
pub struct ModuleTail {
    pub lrc: ModuleDataField,
    pub end: ModuleDataField,
}

impl ModuleTail {
    /// The checksum is two characters, the terminator one, packed back to
    /// back starting at `at`.
    pub open spec fn wf_at(&self, at: int) -> bool {
        &&& self.lrc.wf()
        &&& self.end.wf()
        &&& self.lrc.size == 2
        &&& self.end.size == 1
        &&& self.lrc.index == at
        &&& self.end.index == at + 2
    }

    pub fn new(lrc: ModuleDataField, end: ModuleDataField) -> (r: Self)
        ensures
            r.lrc == lrc,
            r.end == end,
    {
        Self { lrc, end }
    }
}

impl Clone for ModuleTail {
    fn clone(&self) -> (r: Self)
        ensures
            r == *self,
    {
        ModuleTail { lrc: self.lrc.clone(), end: self.end.clone() }
    }
}

/// The command-frame layout: head, then the command and value slots whose
/// content is rewritten per encode call, then the tail.
pub struct ModuleInputFormat {
    pub head: ModuleHead,
    pub command: ModuleDataField,
    pub value: ModuleDataField,
    pub tail: ModuleTail,
}

impl ModuleInputFormat {
    /// Slots are packed back to back; the command and value slots only
    /// contribute their declared sizes, since their content is transient.
    pub open spec fn wf(&self) -> bool {
        &&& self.head.wf()
        &&& self.command.index == self.head.end_index()
        &&& self.value.index == self.command.index + self.command.size
        &&& self.tail.wf_at(self.value.index + self.value.size)
    }

    /// Total length of an assembled command frame.
    pub open spec fn total_len(&self) -> int {
        self.tail.end.index + 1
    }

    pub fn new(
        head: ModuleHead,
        command: ModuleDataField,
        value: ModuleDataField,
        tail: ModuleTail,
    ) -> (r: Self)
        ensures
            r.head == head,
            r.command == command,
            r.value == value,
            r.tail == tail,
    {
        Self { head, command, value, tail }
    }

    pub fn header(&self) -> (r: &ModuleDataField)
        ensures
            *r == self.head.header,
    {
        &self.head.header
    }

    pub fn package(&self) -> (r: &ModuleDataField)
        ensures
            *r == self.head.package,
    {
        &self.head.package
    }

    pub fn setting(&self) -> (r: &ModuleDataField)
        ensures
            *r == self.head.setting,
    {
        &self.head.setting
    }

    pub fn length(&self) -> (r: &ModuleDataField)
        ensures
            *r == self.head.length,
    {
        &self.head.length
    }

    pub fn lrc(&self) -> (r: &ModuleDataField)
        ensures
            *r == self.tail.lrc,
    {
        &self.tail.lrc
    }

    pub fn end(&self) -> (r: &ModuleDataField)
        ensures
            *r == self.tail.end,
    {
        &self.tail.end
    }

    /// Overwrites the command slot's content with the plain (unpadded)
    /// decimal rendering of `command`; every other slot is untouched.
    pub fn set_command(&mut self, command: u8)
        ensures
            final(self).command.string@ == dec_string(command as nat),
            final(self).command.size == old(self).command.size,
            final(self).command.index == old(self).command.index,
            final(self).head == old(self).head,
            final(self).value == old(self).value,
            final(self).tail == old(self).tail,
    {
        let mut s = String::new();
        append_dec_padded(&mut s, command, 0);
        self.command.string = s;
    }

    /// Overwrites the value slot's content with the plain (unpadded) decimal
    /// rendering of `value`; every other slot is untouched.
    pub fn set_value(&mut self, value: u8)
        ensures
            final(self).value.string@ == dec_string(value as nat),
            final(self).value.size == old(self).value.size,
            final(self).value.index == old(self).value.index,
            final(self).head == old(self).head,
            final(self).command == old(self).command,
            final(self).tail == old(self).tail,
    {
        let mut s = String::new();
        append_dec_padded(&mut s, value, 0);
        self.value.string = s;
    }
}

impl Clone for ModuleInputFormat {
    fn clone(&self) -> (r: Self)
        ensures
            r == *self,
    {
        ModuleInputFormat {
            head: self.head.clone(),
            command: self.command.clone(),
            value: self.value.clone(),
            tail: self.tail.clone(),
        }
    }
}

/// The status-frame layout: head, then the one-slot machine state, then the
/// ordered module-specific payload slots, then the tail.
pub struct ModuleOutputFormat {
    pub head: ModuleHead,
    pub state: ModuleDataField,
    pub payload: Vec<ModuleDataField>,
    pub tail: ModuleTail,
}

impl ModuleOutputFormat {
    /// Index one past the last payload slot.
    pub open spec fn payload_end(&self) -> int {
        if self.payload.len() == 0 {
            self.state.index + self.state.size
        } else {
            self.payload@.last().index + self.payload@.last().size
        }
    }

    /// Slots are packed back to back through head, state, each payload slot
    /// and the tail.
    pub open spec fn wf(&self) -> bool {
        &&& self.head.wf()
        &&& self.state.wf()
        &&& self.state.index == self.head.end_index()
        &&& (self.payload.len() > 0 ==> self.payload@[0].index == self.state.index
            + self.state.size)
        &&& (forall|i: int|
            0 < i < self.payload.len() ==> (#[trigger] self.payload@[i].index)
                == self.payload@[i - 1].index + self.payload@[i - 1].size)
        &&& (forall|i: int| 0 <= i < self.payload.len() ==> (#[trigger] self.payload@[i]).wf())
        &&& self.tail.wf_at(self.payload_end())
    }

    /// Total length of a status frame of this layout.
    pub open spec fn total_len(&self) -> int {
        self.tail.end.index + 1
    }

    pub fn new(
        head: ModuleHead,
        state: ModuleDataField,
        payload: Vec<ModuleDataField>,
        tail: ModuleTail,
    ) -> (r: Self)
        ensures
            r.head == head,
            r.state == state,
            r.payload == payload,
            r.tail == tail,
    {
        Self { head, state, payload, tail }
    }

    pub fn header(&self) -> (r: &ModuleDataField)
        ensures
            *r == self.head.header,
    {
        &self.head.header
    }

    pub fn package(&self) -> (r: &ModuleDataField)
        ensures
            *r == self.head.package,
    {
        &self.head.package
    }

    pub fn setting(&self) -> (r: &ModuleDataField)
        ensures
            *r == self.head.setting,
    {
        &self.head.setting
    }

    pub fn length(&self) -> (r: &ModuleDataField)
        ensures
            *r == self.head.length,
    {
        &self.head.length
    }

    pub fn lrc(&self) -> (r: &ModuleDataField)
        ensures
            *r == self.tail.lrc,
    {
        &self.tail.lrc
    }

    pub fn end(&self) -> (r: &ModuleDataField)
        ensures
            *r == self.tail.end,
    {
        &self.tail.end
    }
}

impl Clone for ModuleOutputFormat {
    fn clone(&self) -> (r: Self)
        ensures
            r.head == self.head,
            r.state == self.state,
            r.payload@ == self.payload@,
            r.tail == self.tail,
    {
        let mut payload: Vec<ModuleDataField> = Vec::new();
        let mut i: usize = 0;
        while i < self.payload.len()
            invariant
                0 <= i <= self.payload.len(),
                payload@.len() == i,
                forall|j: int| 0 <= j < i ==> payload@[j] == self.payload@[j],
            decreases self.payload.len() - i,
        {
            payload.push(self.payload[i].clone());
            i = i + 1;
        }
        proof {
            assert(payload@ =~= self.payload@);
        }
        ModuleOutputFormat {
            head: self.head.clone(),
            state: self.state.clone(),
            payload,
            tail: self.tail.clone(),
        }
    }
}

} // verus!
