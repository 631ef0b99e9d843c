//! The endpoints of the API: for each, the URL of its request and the types
//! that its response carries.

pub mod arrive;
pub mod bsa;
pub mod bsa_type;
pub mod count;
pub mod elev;
pub mod elev_type;
pub mod etd;
pub mod minutes;
pub mod routeinfo;
pub mod routes;
pub mod stnaccess;
pub mod stninfo;
pub mod stns;
