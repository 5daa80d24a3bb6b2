//! A small commitment ledger: time-bounded personal commitments ("oaths"),
//! each with a penalty and a set of remedial actions ("remedies"), where a
//! remedy may carry a typed quantity (a unit tag plus an amount).
//!
//! The crate holds the persistence and projection core: the tagged quantity
//! type with its wire and relational encodings, the decomposition of remedy
//! lists into parallel column arrays and their reassembly from stored rows,
//! the read-side projection into display models, and the minified page cache.

mod cache;
mod gateway;
mod schema;
mod unit;
mod view;

pub use cache::CacheError;
pub use cache::CacheMode;
pub use cache::PageCache;
pub use cache::PageSource;
pub use cache::cache_mode_of;
pub use cache::display_unit_names;
pub use cache::initialize_cache;
pub use cache::page_path;
pub use cache::plan_page_delivery;
pub use cache::prepare_content;
pub use gateway::DataFault;
pub use gateway::OathRow;
pub use gateway::ReassemblyError;
pub use gateway::RemedyColumns;
pub use gateway::RemedyRow;
pub use gateway::assemble_aggregates;
pub use gateway::decompose_remedies;
pub use gateway::group_rows;
pub use gateway::reassemble_remedies;
pub use schema::CreateOathModel;
pub use schema::CreateRemedyModel;
pub use schema::CreateUserSchema;
pub use schema::OathSchema;
pub use schema::RemedySchema;
pub use unit::DecodeError;
pub use unit::Unit;
pub use unit::WireValue;
pub use unit::decode_wire;
pub use view::ViewOathModel;
pub use view::ViewRemedyModel;
pub use view::ViewTimeSpanModel;
pub use view::project_oath;
pub use view::project_oath_now;
pub use view::project_remedy;
