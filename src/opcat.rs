//! Operation categories used to classify instructions.
use vstd::prelude::*;

verus! {

#[derive(Debug, Clone, Copy, PartialEq, Eq, Structural)]
pub enum OpCat {
    LoadStore,
    Register,
    Stack,
    Logical,
    Arithmetic,
    IncDec,
    Shifts,
    JumpCall,
    Branch,
    StatusCtrl,
    SysFun,
    Unimpl,
}

impl OpCat {
    /// The category's display name.
    pub open spec fn name_spec(self) -> Seq<char> {
        match self {
            OpCat::LoadStore => "Load/Store"@,
            OpCat::Register => "Register"@,
            OpCat::Stack => "Stack"@,
            OpCat::Logical => "Logical"@,
            OpCat::Arithmetic => "Arithmetic"@,
            OpCat::IncDec => "Inc/Dec"@,
            OpCat::Shifts => "Shifts"@,
            OpCat::JumpCall => "Jump/Call"@,
            OpCat::Branch => "Branch"@,
            OpCat::StatusCtrl => "Status Contrl"@,
            OpCat::SysFun => "System Function"@,
            OpCat::Unimpl => "Unimplemented"@,
        }
    }

    pub fn as_str(&self) -> (r: String)
        ensures
            r@ == self.name_spec(),
    {
        let op_cat = match self {
            OpCat::LoadStore => "Load/Store",
            OpCat::Register => "Register",
            OpCat::Stack => "Stack",
            OpCat::Logical => "Logical",
            OpCat::Arithmetic => "Arithmetic",
            OpCat::IncDec => "Inc/Dec",
            OpCat::Shifts => "Shifts",
            OpCat::JumpCall => "Jump/Call",
            OpCat::Branch => "Branch",
            OpCat::StatusCtrl => "Status Contrl",
            OpCat::SysFun => "System Function",
            OpCat::Unimpl => "Unimplemented",
        };
        op_cat.to_string()
    }
}

} // verus!
