pub mod errors;
pub mod ivrapplications;
pub mod ivrchaperone;
pub mod ivrchaperonesetup;
pub mod ivrcompositor;
pub mod ivrdebug;
pub mod ivrsettings;
pub mod runtime;
pub mod version;
pub mod vrtypes;
