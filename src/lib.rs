pub mod constructor;
pub mod declaration;
pub mod imports;
pub mod module;
pub mod traits;
pub mod translate;

pub use constructor::PursConstructor;
pub use declaration::PursType;
pub use module::PursModule;
pub use traits::{ToPursConstructor, ToPursType};
pub use translate::{
    translate_definition, translate_usage, NativeType, Scalar, TranslateError, TypeDefinition,
    TypeShape,
};
