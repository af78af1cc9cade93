pub mod decode;
pub mod details;
pub mod files;
pub mod json;
pub mod search;
pub mod types;
pub mod urlseg;

pub use decode::{
    decode_package_details, decode_package_internal_files, decode_package_search_result,
};
pub use details::{build_details_url, PackageDetailsParam, PackageDetailsParamBuilder};
pub use files::{build_files_url, PackageInternalFilesParam, PackageInternalFilesParamBuilder};
pub use search::{build_query_param, PackageSearchParam, PackageSearchParamBuilder};
pub use types::{
    Arch, Error, IsFlagged, Package, PackageDetails, PackageInternalFiles, PackageSearchResult,
    Repo,
};
