pub mod config;
pub mod convert;
pub mod iri;
pub mod laws;
pub mod model;
pub mod text;
pub mod vocab;

pub use config::Config;
pub use config::OdityHandling;
pub use config::OdityKind;
pub use config::RDProperty;
pub use config::RoleModes;
pub use convert::convert;
pub use convert::convert_classes;
pub use convert::convert_properties;
pub use convert::convert_property_range_or_domain;
pub use convert::Conversion;
pub use convert::ConvertError;
pub use convert::ListCollectionMethod;
pub use convert::UsedConventions;
pub use convert::Warning;
pub use model::ClassRecord;
pub use model::PropertyRecord;
pub use model::PropertyType;
pub use model::ShapeStore;
pub use model::Term;
pub use model::Triple;
