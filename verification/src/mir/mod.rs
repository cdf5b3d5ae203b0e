//! The simplified statement tree and the passes over it: lowering from the
//! syntax tree, name resolution, and symbol mangling.
pub mod absoluteify;
pub mod hash;
pub mod laws;
pub mod mangle;
pub mod to_mir;
pub mod tree;

pub use crate::mir::absoluteify::{AbsolutePath, AbsoluteScope, AbsoluteVar, ToAbsolute};
pub use crate::mir::mangle::{Mangle, MangleScope, MangledVar};
pub use crate::mir::to_mir::ToMir;
pub use crate::mir::tree::{
    MirAssignment, MirBinaryOp, MirDeclaration, MirElseBlock, MirExpression, MirFor, MirFunction,
    MirIf, MirPrimitive, MirStatement, MirType, MirUnaryOp, MirWhile, RelativePath,
};
