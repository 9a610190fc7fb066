use vstd::prelude::*;

use crate::handle::{hid_t, Handle};
use crate::text::{
    decimal, decimal_list, lemma_decimal_four_digits, decimal_list_string, decimal_string, push_decimal,
    push_signed_decimal, signed_decimal, signed_decimal_string,
};

verus! {

// ===========================================================================
// Error categories
// ===========================================================================

/// Error categories for HDF5 operations, each with its own range of numeric codes:
/// File 1000-1999, Dataset 2000-2999, Attribute 3000-3999, Group 4000-4999,
/// Datatype 5000-5999, Dataspace 6000-6999, Handle 7000-7999, Filter 8000-8999,
/// Internal 9000-9999.
#[derive(Clone, Copy, Debug, PartialEq, Eq, Structural)]
pub enum H5ErrorCategory {
    File,
    Dataset,
    Attribute,
    Group,
    Datatype,
    Dataspace,
    Handle,
    Filter,
    Internal,
}

impl H5ErrorCategory {
    /// The first code of this category's range.
    pub open spec fn prefix(self) -> nat {
        match self {
            H5ErrorCategory::File => 1000,
            H5ErrorCategory::Dataset => 2000,
            H5ErrorCategory::Attribute => 3000,
            H5ErrorCategory::Group => 4000,
            H5ErrorCategory::Datatype => 5000,
            H5ErrorCategory::Dataspace => 6000,
            H5ErrorCategory::Handle => 7000,
            H5ErrorCategory::Filter => 8000,
            H5ErrorCategory::Internal => 9000,
        }
    }

    /// The name of this category.
    pub open spec fn name(self) -> Seq<char> {
        match self {
            H5ErrorCategory::File => "FILE"@,
            H5ErrorCategory::Dataset => "DATASET"@,
            H5ErrorCategory::Attribute => "ATTRIBUTE"@,
            H5ErrorCategory::Group => "GROUP"@,
            H5ErrorCategory::Datatype => "DATATYPE"@,
            H5ErrorCategory::Dataspace => "DATASPACE"@,
            H5ErrorCategory::Handle => "HANDLE"@,
            H5ErrorCategory::Filter => "FILTER"@,
            H5ErrorCategory::Internal => "INTERNAL"@,
        }
    }

    /// Returns the numeric prefix for this error category.
    pub fn code_prefix(&self) -> (p: u16)
        ensures
            p == self.prefix(),
    {
        match self {
            H5ErrorCategory::File => 1000,
            H5ErrorCategory::Dataset => 2000,
            H5ErrorCategory::Attribute => 3000,
            H5ErrorCategory::Group => 4000,
            H5ErrorCategory::Datatype => 5000,
            H5ErrorCategory::Dataspace => 6000,
            H5ErrorCategory::Handle => 7000,
            H5ErrorCategory::Filter => 8000,
            H5ErrorCategory::Internal => 9000,
        }
    }

    /// Returns the string representation of this category.
    pub fn as_str(&self) -> (s: &'static str)
        ensures
            s@ == self.name(),
    {
        match self {
            H5ErrorCategory::File => "FILE",
            H5ErrorCategory::Dataset => "DATASET",
            H5ErrorCategory::Attribute => "ATTRIBUTE",
            H5ErrorCategory::Group => "GROUP",
            H5ErrorCategory::Datatype => "DATATYPE",
            H5ErrorCategory::Dataspace => "DATASPACE",
            H5ErrorCategory::Handle => "HANDLE",
            H5ErrorCategory::Filter => "FILTER",
            H5ErrorCategory::Internal => "INTERNAL",
        }
    }

    /// Creates a category from a numeric code: the category whose range holds the code.
    pub fn from_code(code: u16) -> (c: Option<H5ErrorCategory>)
        ensures
            c == category_of_code(code as nat),
    {
        if 1000 <= code && code <= 1999 {
            Some(H5ErrorCategory::File)
        } else if 2000 <= code && code <= 2999 {
            Some(H5ErrorCategory::Dataset)
        } else if 3000 <= code && code <= 3999 {
            Some(H5ErrorCategory::Attribute)
        } else if 4000 <= code && code <= 4999 {
            Some(H5ErrorCategory::Group)
        } else if 5000 <= code && code <= 5999 {
            Some(H5ErrorCategory::Datatype)
        } else if 6000 <= code && code <= 6999 {
            Some(H5ErrorCategory::Dataspace)
        } else if 7000 <= code && code <= 7999 {
            Some(H5ErrorCategory::Handle)
        } else if 8000 <= code && code <= 8999 {
            Some(H5ErrorCategory::Filter)
        } else if 9000 <= code && code <= 9999 {
            Some(H5ErrorCategory::Internal)
        } else {
            None
        }
    }
}

/// The category whose range of codes holds `code`, if any.
pub open spec fn category_of_code(code: nat) -> Option<H5ErrorCategory> {
    if 1000 <= code < 2000 {
        Some(H5ErrorCategory::File)
    } else if 2000 <= code < 3000 {
        Some(H5ErrorCategory::Dataset)
    } else if 3000 <= code < 4000 {
        Some(H5ErrorCategory::Attribute)
    } else if 4000 <= code < 5000 {
        Some(H5ErrorCategory::Group)
    } else if 5000 <= code < 6000 {
        Some(H5ErrorCategory::Datatype)
    } else if 6000 <= code < 7000 {
        Some(H5ErrorCategory::Dataspace)
    } else if 7000 <= code < 8000 {
        Some(H5ErrorCategory::Handle)
    } else if 8000 <= code < 9000 {
        Some(H5ErrorCategory::Filter)
    } else if 9000 <= code < 10000 {
        Some(H5ErrorCategory::Internal)
    } else {
        None
    }
}

/// The first code of a category's range names that category.
pub proof fn law_category_prefix_reads_back(c: H5ErrorCategory)
    ensures
        category_of_code(c.prefix()) == Some(c),
{
}

// ===========================================================================
// The error type
// ===========================================================================

/// The main error type for HDF5 operations, with structured error codes.
///
/// Each variant has a numeric code: its category's prefix plus its position within the
/// category, shown as `[CATEGORY-NNNN]`.
#[derive(Clone)]
pub enum H5Error {
    /// File not found at the specified path.
    FileNotFound { path: String },
    /// Error opening file.
    FileOpenError { path: String, reason: String },
    /// Error creating file.
    FileCreateError { path: String, reason: String },
    /// I/O error during file operations.
    FileIOError { path: String, operation: String },
    /// Invalid file access mode.
    InvalidAccessMode { mode: String },
    /// Dataset not found.
    DatasetNotFound { name: String },
    /// Dataset shape mismatch.
    DatasetShapeMismatch { expected: Vec<usize>, found: Vec<usize> },
    /// Dataset space allocation failed.
    DatasetSpaceError { reason: String },
    /// Chunk size configuration error.
    ChunkSizeError { reason: String },
    /// Dataset read error.
    DatasetReadError { name: String, reason: String },
    /// Dataset write error.
    DatasetWriteError { name: String, reason: String },
    /// Attribute not found.
    AttributeNotFound { name: String },
    /// Attribute read error.
    AttributeReadError { name: String, reason: String },
    /// Attribute write error.
    AttributeWriteError { name: String, reason: String },
    /// Attribute delete error.
    AttributeDeleteError { name: String, reason: String },
    /// Group not found.
    GroupNotFound { path: String },
    /// Group creation failed.
    GroupCreateError { path: String, reason: String },
    /// Invalid group path.
    InvalidGroupPath { path: String, reason: String },
    /// Group iteration error.
    GroupIterationError { reason: String },
    /// Type conversion failed.
    TypeConversionError { from: String, to: String },
    /// Invalid datatype for operation.
    InvalidDatatype { datatype: String, operation: String },
    /// Datatype creation failed.
    DatatypeCreateError { reason: String },
    /// Dataspace selection error.
    SelectionError { reason: String },
    /// Invalid hyperslab selection.
    HyperslabError { reason: String },
    /// Point selection error.
    PointSelectionError { reason: String },
    /// Dimension out of bounds.
    DimensionBoundsError { index: usize, max: usize, dim_name: Option<String> },
    /// Dimension size overflow.
    DimensionOverflow { dims: Vec<usize> },
    /// Invalid handle identifier.
    InvalidHandle { handle_id: hid_t, description: String },
    /// Handle already closed.
    HandleClosed { handle_type: String },
    /// Handle creation failed.
    HandleCreateError { object_type: String, reason: String },
    /// Filter not available.
    FilterNotAvailable { filter_name: String },
    /// Filter registration failed.
    FilterRegistrationError { filter_name: String, reason: String },
    /// Filter configuration error.
    FilterConfigError { filter_name: String, reason: String },
    /// Compression/decompression error.
    FilterOperationError { filter_name: String, operation: String },
    /// HDF5 C library error with error stack.
    HDF5Error(ErrorStack),
    /// Generic internal error.
    Internal { message: String },
    /// Feature not implemented.
    NotImplemented { feature: String },
    /// Invalid argument provided.
    InvalidArgument { arg_name: String, reason: String },
    /// Out of memory.
    OutOfMemory,
}

impl H5Error {
    /// Builds the error: file not found at the specified path.
    pub fn file_not_found(path: &str) -> (e: H5Error)
        ensures
            e matches H5Error::FileNotFound { path: e_path } && e_path@ == path@,
    {
        H5Error::FileNotFound { path: path.to_owned() }
    }

    /// Builds the error: error opening file.
    pub fn file_open_error(path: &str, reason: &str) -> (e: H5Error)
        ensures
            e matches H5Error::FileOpenError { path: e_path, reason: e_reason } && e_path@ == path@ && e_reason@ == reason@,
    {
        H5Error::FileOpenError { path: path.to_owned(), reason: reason.to_owned() }
    }

    /// Builds the error: error creating file.
    pub fn file_create_error(path: &str, reason: &str) -> (e: H5Error)
        ensures
            e matches H5Error::FileCreateError { path: e_path, reason: e_reason } && e_path@ == path@ && e_reason@ == reason@,
    {
        H5Error::FileCreateError { path: path.to_owned(), reason: reason.to_owned() }
    }

    /// Builds the error: I/O error during file operations.
    pub fn file_io_error(path: &str, operation: &str) -> (e: H5Error)
        ensures
            e matches H5Error::FileIOError { path: e_path, operation: e_operation } && e_path@ == path@ && e_operation@ == operation@,
    {
        H5Error::FileIOError { path: path.to_owned(), operation: operation.to_owned() }
    }

    /// Builds the error: invalid file access mode.
    pub fn invalid_access_mode(mode: &str) -> (e: H5Error)
        ensures
            e matches H5Error::InvalidAccessMode { mode: e_mode } && e_mode@ == mode@,
    {
        H5Error::InvalidAccessMode { mode: mode.to_owned() }
    }

    /// Builds the error: dataset not found.
    pub fn dataset_not_found(name: &str) -> (e: H5Error)
        ensures
            e matches H5Error::DatasetNotFound { name: e_name } && e_name@ == name@,
    {
        H5Error::DatasetNotFound { name: name.to_owned() }
    }

    /// Builds the error: dataset shape mismatch.
    pub fn dataset_shape_mismatch(expected: Vec<usize>, found: Vec<usize>) -> (e: H5Error)
        ensures
            e matches H5Error::DatasetShapeMismatch { expected: e_expected, found: e_found } && e_expected == expected && e_found == found,
    {
        H5Error::DatasetShapeMismatch { expected, found }
    }

    /// Builds the error: dataset space allocation failed.
    pub fn dataset_space_error(reason: &str) -> (e: H5Error)
        ensures
            e matches H5Error::DatasetSpaceError { reason: e_reason } && e_reason@ == reason@,
    {
        H5Error::DatasetSpaceError { reason: reason.to_owned() }
    }

    /// Builds the error: chunk size configuration error.
    pub fn chunk_size_error(reason: &str) -> (e: H5Error)
        ensures
            e matches H5Error::ChunkSizeError { reason: e_reason } && e_reason@ == reason@,
    {
        H5Error::ChunkSizeError { reason: reason.to_owned() }
    }

    /// Builds the error: dataset read error.
    pub fn dataset_read_error(name: &str, reason: &str) -> (e: H5Error)
        ensures
            e matches H5Error::DatasetReadError { name: e_name, reason: e_reason } && e_name@ == name@ && e_reason@ == reason@,
    {
        H5Error::DatasetReadError { name: name.to_owned(), reason: reason.to_owned() }
    }

    /// Builds the error: dataset write error.
    pub fn dataset_write_error(name: &str, reason: &str) -> (e: H5Error)
        ensures
            e matches H5Error::DatasetWriteError { name: e_name, reason: e_reason } && e_name@ == name@ && e_reason@ == reason@,
    {
        H5Error::DatasetWriteError { name: name.to_owned(), reason: reason.to_owned() }
    }

    /// Builds the error: attribute not found.
    pub fn attribute_not_found(name: &str) -> (e: H5Error)
        ensures
            e matches H5Error::AttributeNotFound { name: e_name } && e_name@ == name@,
    {
        H5Error::AttributeNotFound { name: name.to_owned() }
    }

    /// Builds the error: attribute read error.
    pub fn attribute_read_error(name: &str, reason: &str) -> (e: H5Error)
        ensures
            e matches H5Error::AttributeReadError { name: e_name, reason: e_reason } && e_name@ == name@ && e_reason@ == reason@,
    {
        H5Error::AttributeReadError { name: name.to_owned(), reason: reason.to_owned() }
    }

    /// Builds the error: attribute write error.
    pub fn attribute_write_error(name: &str, reason: &str) -> (e: H5Error)
        ensures
            e matches H5Error::AttributeWriteError { name: e_name, reason: e_reason } && e_name@ == name@ && e_reason@ == reason@,
    {
        H5Error::AttributeWriteError { name: name.to_owned(), reason: reason.to_owned() }
    }

    /// Builds the error: attribute delete error.
    pub fn attribute_delete_error(name: &str, reason: &str) -> (e: H5Error)
        ensures
            e matches H5Error::AttributeDeleteError { name: e_name, reason: e_reason } && e_name@ == name@ && e_reason@ == reason@,
    {
        H5Error::AttributeDeleteError { name: name.to_owned(), reason: reason.to_owned() }
    }

    /// Builds the error: group not found.
    pub fn group_not_found(path: &str) -> (e: H5Error)
        ensures
            e matches H5Error::GroupNotFound { path: e_path } && e_path@ == path@,
    {
        H5Error::GroupNotFound { path: path.to_owned() }
    }

    /// Builds the error: group creation failed.
    pub fn group_create_error(path: &str, reason: &str) -> (e: H5Error)
        ensures
            e matches H5Error::GroupCreateError { path: e_path, reason: e_reason } && e_path@ == path@ && e_reason@ == reason@,
    {
        H5Error::GroupCreateError { path: path.to_owned(), reason: reason.to_owned() }
    }

    /// Builds the error: invalid group path.
    pub fn invalid_group_path(path: &str, reason: &str) -> (e: H5Error)
        ensures
            e matches H5Error::InvalidGroupPath { path: e_path, reason: e_reason } && e_path@ == path@ && e_reason@ == reason@,
    {
        H5Error::InvalidGroupPath { path: path.to_owned(), reason: reason.to_owned() }
    }

    /// Builds the error: group iteration error.
    pub fn group_iteration_error(reason: &str) -> (e: H5Error)
        ensures
            e matches H5Error::GroupIterationError { reason: e_reason } && e_reason@ == reason@,
    {
        H5Error::GroupIterationError { reason: reason.to_owned() }
    }

    /// Builds the error: type conversion failed.
    pub fn type_conversion_error(from: &str, to: &str) -> (e: H5Error)
        ensures
            e matches H5Error::TypeConversionError { from: e_from, to: e_to } && e_from@ == from@ && e_to@ == to@,
    {
        H5Error::TypeConversionError { from: from.to_owned(), to: to.to_owned() }
    }

    /// Builds the error: invalid datatype for operation.
    pub fn invalid_datatype(datatype: &str, operation: &str) -> (e: H5Error)
        ensures
            e matches H5Error::InvalidDatatype { datatype: e_datatype, operation: e_operation } && e_datatype@ == datatype@ && e_operation@ == operation@,
    {
        H5Error::InvalidDatatype { datatype: datatype.to_owned(), operation: operation.to_owned() }
    }

    /// Builds the error: datatype creation failed.
    pub fn datatype_create_error(reason: &str) -> (e: H5Error)
        ensures
            e matches H5Error::DatatypeCreateError { reason: e_reason } && e_reason@ == reason@,
    {
        H5Error::DatatypeCreateError { reason: reason.to_owned() }
    }

    /// Builds the error: dataspace selection error.
    pub fn selection_error(reason: &str) -> (e: H5Error)
        ensures
            e matches H5Error::SelectionError { reason: e_reason } && e_reason@ == reason@,
    {
        H5Error::SelectionError { reason: reason.to_owned() }
    }

    /// Builds the error: invalid hyperslab selection.
    pub fn hyperslab_error(reason: &str) -> (e: H5Error)
        ensures
            e matches H5Error::HyperslabError { reason: e_reason } && e_reason@ == reason@,
    {
        H5Error::HyperslabError { reason: reason.to_owned() }
    }

    /// Builds the error: point selection error.
    pub fn point_selection_error(reason: &str) -> (e: H5Error)
        ensures
            e matches H5Error::PointSelectionError { reason: e_reason } && e_reason@ == reason@,
    {
        H5Error::PointSelectionError { reason: reason.to_owned() }
    }

    /// Builds the error: dimension out of bounds.
    pub fn dimension_bounds_error(index: usize, max: usize, dim_name: Option<String>) -> (e: H5Error)
        ensures
            e matches H5Error::DimensionBoundsError { index: e_index, max: e_max, dim_name: e_dim_name } && e_index == index && e_max == max && e_dim_name == dim_name,
    {
        H5Error::DimensionBoundsError { index, max, dim_name }
    }

    /// Builds the error: dimension size overflow.
    pub fn dimension_overflow(dims: Vec<usize>) -> (e: H5Error)
        ensures
            e matches H5Error::DimensionOverflow { dims: e_dims } && e_dims == dims,
    {
        H5Error::DimensionOverflow { dims }
    }

    /// Builds the error: invalid handle identifier.
    pub fn invalid_handle(handle_id: hid_t, description: &str) -> (e: H5Error)
        ensures
            e matches H5Error::InvalidHandle { handle_id: e_handle_id, description: e_description } && e_handle_id == handle_id && e_description@ == description@,
    {
        H5Error::InvalidHandle { handle_id, description: description.to_owned() }
    }

    /// Builds the error: handle already closed.
    pub fn handle_closed(handle_type: &str) -> (e: H5Error)
        ensures
            e matches H5Error::HandleClosed { handle_type: e_handle_type } && e_handle_type@ == handle_type@,
    {
        H5Error::HandleClosed { handle_type: handle_type.to_owned() }
    }

    /// Builds the error: handle creation failed.
    pub fn handle_create_error(object_type: &str, reason: &str) -> (e: H5Error)
        ensures
            e matches H5Error::HandleCreateError { object_type: e_object_type, reason: e_reason } && e_object_type@ == object_type@ && e_reason@ == reason@,
    {
        H5Error::HandleCreateError { object_type: object_type.to_owned(), reason: reason.to_owned() }
    }

    /// Builds the error: filter not available.
    pub fn filter_not_available(filter_name: &str) -> (e: H5Error)
        ensures
            e matches H5Error::FilterNotAvailable { filter_name: e_filter_name } && e_filter_name@ == filter_name@,
    {
        H5Error::FilterNotAvailable { filter_name: filter_name.to_owned() }
    }

    /// Builds the error: filter registration failed.
    pub fn filter_registration_error(filter_name: &str, reason: &str) -> (e: H5Error)
        ensures
            e matches H5Error::FilterRegistrationError { filter_name: e_filter_name, reason: e_reason } && e_filter_name@ == filter_name@ && e_reason@ == reason@,
    {
        H5Error::FilterRegistrationError { filter_name: filter_name.to_owned(), reason: reason.to_owned() }
    }

    /// Builds the error: filter configuration error.
    pub fn filter_config_error(filter_name: &str, reason: &str) -> (e: H5Error)
        ensures
            e matches H5Error::FilterConfigError { filter_name: e_filter_name, reason: e_reason } && e_filter_name@ == filter_name@ && e_reason@ == reason@,
    {
        H5Error::FilterConfigError { filter_name: filter_name.to_owned(), reason: reason.to_owned() }
    }

    /// Builds the error: compression/decompression error.
    pub fn filter_operation_error(filter_name: &str, operation: &str) -> (e: H5Error)
        ensures
            e matches H5Error::FilterOperationError { filter_name: e_filter_name, operation: e_operation } && e_filter_name@ == filter_name@ && e_operation@ == operation@,
    {
        H5Error::FilterOperationError { filter_name: filter_name.to_owned(), operation: operation.to_owned() }
    }

    /// Builds the error: HDF5 C library error with error stack.
    pub fn hdf5_error(stack: ErrorStack) -> (e: H5Error)
        ensures
            e == H5Error::HDF5Error(stack),
    {
        H5Error::HDF5Error(stack)
    }

    /// Builds the error: generic internal error.
    pub fn internal(message: &str) -> (e: H5Error)
        ensures
            e matches H5Error::Internal { message: e_message } && e_message@ == message@,
    {
        H5Error::Internal { message: message.to_owned() }
    }

    /// Builds the error: feature not implemented.
    pub fn not_implemented(feature: &str) -> (e: H5Error)
        ensures
            e matches H5Error::NotImplemented { feature: e_feature } && e_feature@ == feature@,
    {
        H5Error::NotImplemented { feature: feature.to_owned() }
    }

    /// Builds the error: invalid argument provided.
    pub fn invalid_argument(arg_name: &str, reason: &str) -> (e: H5Error)
        ensures
            e matches H5Error::InvalidArgument { arg_name: e_arg_name, reason: e_reason } && e_arg_name@ == arg_name@ && e_reason@ == reason@,
    {
        H5Error::InvalidArgument { arg_name: arg_name.to_owned(), reason: reason.to_owned() }
    }

    /// Builds the error: out of memory.
    pub fn out_of_memory() -> (e: H5Error)
        ensures
            e is OutOfMemory,
    {
        H5Error::OutOfMemory
    }

    /// The category of this error.
    pub open spec fn spec_category(self) -> H5ErrorCategory {
        match self {
            H5Error::FileNotFound { .. } => H5ErrorCategory::File,
            H5Error::FileOpenError { .. } => H5ErrorCategory::File,
            H5Error::FileCreateError { .. } => H5ErrorCategory::File,
            H5Error::FileIOError { .. } => H5ErrorCategory::File,
            H5Error::InvalidAccessMode { .. } => H5ErrorCategory::File,
            H5Error::DatasetNotFound { .. } => H5ErrorCategory::Dataset,
            H5Error::DatasetShapeMismatch { .. } => H5ErrorCategory::Dataset,
            H5Error::DatasetSpaceError { .. } => H5ErrorCategory::Dataset,
            H5Error::ChunkSizeError { .. } => H5ErrorCategory::Dataset,
            H5Error::DatasetReadError { .. } => H5ErrorCategory::Dataset,
            H5Error::DatasetWriteError { .. } => H5ErrorCategory::Dataset,
            H5Error::AttributeNotFound { .. } => H5ErrorCategory::Attribute,
            H5Error::AttributeReadError { .. } => H5ErrorCategory::Attribute,
            H5Error::AttributeWriteError { .. } => H5ErrorCategory::Attribute,
            H5Error::AttributeDeleteError { .. } => H5ErrorCategory::Attribute,
            H5Error::GroupNotFound { .. } => H5ErrorCategory::Group,
            H5Error::GroupCreateError { .. } => H5ErrorCategory::Group,
            H5Error::InvalidGroupPath { .. } => H5ErrorCategory::Group,
            H5Error::GroupIterationError { .. } => H5ErrorCategory::Group,
            H5Error::TypeConversionError { .. } => H5ErrorCategory::Datatype,
            H5Error::InvalidDatatype { .. } => H5ErrorCategory::Datatype,
            H5Error::DatatypeCreateError { .. } => H5ErrorCategory::Datatype,
            H5Error::SelectionError { .. } => H5ErrorCategory::Dataspace,
            H5Error::HyperslabError { .. } => H5ErrorCategory::Dataspace,
            H5Error::PointSelectionError { .. } => H5ErrorCategory::Dataspace,
            H5Error::DimensionBoundsError { .. } => H5ErrorCategory::Dataspace,
            H5Error::DimensionOverflow { .. } => H5ErrorCategory::Dataspace,
            H5Error::InvalidHandle { .. } => H5ErrorCategory::Handle,
            H5Error::HandleClosed { .. } => H5ErrorCategory::Handle,
            H5Error::HandleCreateError { .. } => H5ErrorCategory::Handle,
            H5Error::FilterNotAvailable { .. } => H5ErrorCategory::Filter,
            H5Error::FilterRegistrationError { .. } => H5ErrorCategory::Filter,
            H5Error::FilterConfigError { .. } => H5ErrorCategory::Filter,
            H5Error::FilterOperationError { .. } => H5ErrorCategory::Filter,
            H5Error::HDF5Error(_) => H5ErrorCategory::Internal,
            H5Error::Internal { .. } => H5ErrorCategory::Internal,
            H5Error::NotImplemented { .. } => H5ErrorCategory::Internal,
            H5Error::InvalidArgument { .. } => H5ErrorCategory::Internal,
            H5Error::OutOfMemory => H5ErrorCategory::Internal,
        }
    }

    /// The position of this error's variant within its category (from 1).
    pub open spec fn position(self) -> nat {
        match self {
            H5Error::FileNotFound { .. } => 1,
            H5Error::FileOpenError { .. } => 2,
            H5Error::FileCreateError { .. } => 3,
            H5Error::FileIOError { .. } => 4,
            H5Error::InvalidAccessMode { .. } => 5,
            H5Error::DatasetNotFound { .. } => 1,
            H5Error::DatasetShapeMismatch { .. } => 2,
            H5Error::DatasetSpaceError { .. } => 3,
            H5Error::ChunkSizeError { .. } => 4,
            H5Error::DatasetReadError { .. } => 5,
            H5Error::DatasetWriteError { .. } => 6,
            H5Error::AttributeNotFound { .. } => 1,
            H5Error::AttributeReadError { .. } => 2,
            H5Error::AttributeWriteError { .. } => 3,
            H5Error::AttributeDeleteError { .. } => 4,
            H5Error::GroupNotFound { .. } => 1,
            H5Error::GroupCreateError { .. } => 2,
            H5Error::InvalidGroupPath { .. } => 3,
            H5Error::GroupIterationError { .. } => 4,
            H5Error::TypeConversionError { .. } => 1,
            H5Error::InvalidDatatype { .. } => 2,
            H5Error::DatatypeCreateError { .. } => 3,
            H5Error::SelectionError { .. } => 1,
            H5Error::HyperslabError { .. } => 2,
            H5Error::PointSelectionError { .. } => 3,
            H5Error::DimensionBoundsError { .. } => 4,
            H5Error::DimensionOverflow { .. } => 5,
            H5Error::InvalidHandle { .. } => 1,
            H5Error::HandleClosed { .. } => 2,
            H5Error::HandleCreateError { .. } => 3,
            H5Error::FilterNotAvailable { .. } => 1,
            H5Error::FilterRegistrationError { .. } => 2,
            H5Error::FilterConfigError { .. } => 3,
            H5Error::FilterOperationError { .. } => 4,
            H5Error::HDF5Error(_) => 1,
            H5Error::Internal { .. } => 2,
            H5Error::NotImplemented { .. } => 3,
            H5Error::InvalidArgument { .. } => 4,
            H5Error::OutOfMemory => 5,
        }
    }

    /// The numeric code of this error.
    pub open spec fn spec_code(self) -> nat {
        self.spec_category().prefix() + self.position()
    }

    /// Every error's code lies strictly inside its category's range of codes, so that the
    /// category can be read back from the code.
    pub proof fn law_code_within_category(self)
        ensures
            self.spec_category().prefix() < self.spec_code() < self.spec_category().prefix() + 1000,
            category_of_code(self.spec_code()) == Some(self.spec_category()),
    {
    }

    /// Returns the error category for this error.
    pub fn category(&self) -> (c: H5ErrorCategory)
        ensures
            c == self.spec_category(),
    {
        match self {
            H5Error::FileNotFound { .. } => H5ErrorCategory::File,
            H5Error::FileOpenError { .. } => H5ErrorCategory::File,
            H5Error::FileCreateError { .. } => H5ErrorCategory::File,
            H5Error::FileIOError { .. } => H5ErrorCategory::File,
            H5Error::InvalidAccessMode { .. } => H5ErrorCategory::File,
            H5Error::DatasetNotFound { .. } => H5ErrorCategory::Dataset,
            H5Error::DatasetShapeMismatch { .. } => H5ErrorCategory::Dataset,
            H5Error::DatasetSpaceError { .. } => H5ErrorCategory::Dataset,
            H5Error::ChunkSizeError { .. } => H5ErrorCategory::Dataset,
            H5Error::DatasetReadError { .. } => H5ErrorCategory::Dataset,
            H5Error::DatasetWriteError { .. } => H5ErrorCategory::Dataset,
            H5Error::AttributeNotFound { .. } => H5ErrorCategory::Attribute,
            H5Error::AttributeReadError { .. } => H5ErrorCategory::Attribute,
            H5Error::AttributeWriteError { .. } => H5ErrorCategory::Attribute,
            H5Error::AttributeDeleteError { .. } => H5ErrorCategory::Attribute,
            H5Error::GroupNotFound { .. } => H5ErrorCategory::Group,
            H5Error::GroupCreateError { .. } => H5ErrorCategory::Group,
            H5Error::InvalidGroupPath { .. } => H5ErrorCategory::Group,
            H5Error::GroupIterationError { .. } => H5ErrorCategory::Group,
            H5Error::TypeConversionError { .. } => H5ErrorCategory::Datatype,
            H5Error::InvalidDatatype { .. } => H5ErrorCategory::Datatype,
            H5Error::DatatypeCreateError { .. } => H5ErrorCategory::Datatype,
            H5Error::SelectionError { .. } => H5ErrorCategory::Dataspace,
            H5Error::HyperslabError { .. } => H5ErrorCategory::Dataspace,
            H5Error::PointSelectionError { .. } => H5ErrorCategory::Dataspace,
            H5Error::DimensionBoundsError { .. } => H5ErrorCategory::Dataspace,
            H5Error::DimensionOverflow { .. } => H5ErrorCategory::Dataspace,
            H5Error::InvalidHandle { .. } => H5ErrorCategory::Handle,
            H5Error::HandleClosed { .. } => H5ErrorCategory::Handle,
            H5Error::HandleCreateError { .. } => H5ErrorCategory::Handle,
            H5Error::FilterNotAvailable { .. } => H5ErrorCategory::Filter,
            H5Error::FilterRegistrationError { .. } => H5ErrorCategory::Filter,
            H5Error::FilterConfigError { .. } => H5ErrorCategory::Filter,
            H5Error::FilterOperationError { .. } => H5ErrorCategory::Filter,
            H5Error::HDF5Error(_) => H5ErrorCategory::Internal,
            H5Error::Internal { .. } => H5ErrorCategory::Internal,
            H5Error::NotImplemented { .. } => H5ErrorCategory::Internal,
            H5Error::InvalidArgument { .. } => H5ErrorCategory::Internal,
            H5Error::OutOfMemory => H5ErrorCategory::Internal,
        }
    }

    /// Returns the specific error code: the category prefix plus the variant's position.
    pub fn code(&self) -> (c: u16)
        ensures
            c == self.spec_code(),
    {
        let base = self.category().code_prefix();
        let offset: u16 = match self {
            H5Error::FileNotFound { .. } => 1,
            H5Error::FileOpenError { .. } => 2,
            H5Error::FileCreateError { .. } => 3,
            H5Error::FileIOError { .. } => 4,
            H5Error::InvalidAccessMode { .. } => 5,
            H5Error::DatasetNotFound { .. } => 1,
            H5Error::DatasetShapeMismatch { .. } => 2,
            H5Error::DatasetSpaceError { .. } => 3,
            H5Error::ChunkSizeError { .. } => 4,
            H5Error::DatasetReadError { .. } => 5,
            H5Error::DatasetWriteError { .. } => 6,
            H5Error::AttributeNotFound { .. } => 1,
            H5Error::AttributeReadError { .. } => 2,
            H5Error::AttributeWriteError { .. } => 3,
            H5Error::AttributeDeleteError { .. } => 4,
            H5Error::GroupNotFound { .. } => 1,
            H5Error::GroupCreateError { .. } => 2,
            H5Error::InvalidGroupPath { .. } => 3,
            H5Error::GroupIterationError { .. } => 4,
            H5Error::TypeConversionError { .. } => 1,
            H5Error::InvalidDatatype { .. } => 2,
            H5Error::DatatypeCreateError { .. } => 3,
            H5Error::SelectionError { .. } => 1,
            H5Error::HyperslabError { .. } => 2,
            H5Error::PointSelectionError { .. } => 3,
            H5Error::DimensionBoundsError { .. } => 4,
            H5Error::DimensionOverflow { .. } => 5,
            H5Error::InvalidHandle { .. } => 1,
            H5Error::HandleClosed { .. } => 2,
            H5Error::HandleCreateError { .. } => 3,
            H5Error::FilterNotAvailable { .. } => 1,
            H5Error::FilterRegistrationError { .. } => 2,
            H5Error::FilterConfigError { .. } => 3,
            H5Error::FilterOperationError { .. } => 4,
            H5Error::HDF5Error(_) => 1,
            H5Error::Internal { .. } => 2,
            H5Error::NotImplemented { .. } => 3,
            H5Error::InvalidArgument { .. } => 4,
            H5Error::OutOfMemory => 5,
        };
        base + offset
    }

    /// The structured fields of this error for logging: each a key and its text.
    pub open spec fn spec_log_fields(self) -> Seq<(Seq<char>, Seq<char>)> {
        match self {
            H5Error::FileNotFound { path } => seq![("path"@, path@)],
            H5Error::FileOpenError { path, reason } => seq![("path"@, path@), ("reason"@, reason@)],
            H5Error::FileCreateError { path, reason } => seq![("path"@, path@), ("reason"@, reason@)],
            H5Error::FileIOError { path, operation } => seq![("path"@, path@), ("operation"@, operation@)],
            H5Error::InvalidAccessMode { mode } => seq![("mode"@, mode@)],
            H5Error::DatasetNotFound { name } => seq![("name"@, name@)],
            H5Error::DatasetShapeMismatch { expected, found } => seq![("expected"@, decimal_list(expected@)), ("found"@, decimal_list(found@))],
            H5Error::DatasetSpaceError { reason } => seq![("reason"@, reason@)],
            H5Error::ChunkSizeError { reason } => seq![("reason"@, reason@)],
            H5Error::DatasetReadError { name, reason } => seq![("name"@, name@), ("reason"@, reason@)],
            H5Error::DatasetWriteError { name, reason } => seq![("name"@, name@), ("reason"@, reason@)],
            H5Error::AttributeNotFound { name } => seq![("name"@, name@)],
            H5Error::AttributeReadError { name, reason } => seq![("name"@, name@), ("reason"@, reason@)],
            H5Error::AttributeWriteError { name, reason } => seq![("name"@, name@), ("reason"@, reason@)],
            H5Error::AttributeDeleteError { name, reason } => seq![("name"@, name@), ("reason"@, reason@)],
            H5Error::GroupNotFound { path } => seq![("path"@, path@)],
            H5Error::GroupCreateError { path, reason } => seq![("path"@, path@), ("reason"@, reason@)],
            H5Error::InvalidGroupPath { path, reason } => seq![("path"@, path@), ("reason"@, reason@)],
            H5Error::GroupIterationError { reason } => seq![("reason"@, reason@)],
            H5Error::TypeConversionError { from, to } => seq![("from"@, from@), ("to"@, to@)],
            H5Error::InvalidDatatype { datatype, operation } => seq![("datatype"@, datatype@), ("operation"@, operation@)],
            H5Error::DatatypeCreateError { reason } => seq![("reason"@, reason@)],
            H5Error::SelectionError { reason } => seq![("reason"@, reason@)],
            H5Error::HyperslabError { reason } => seq![("reason"@, reason@)],
            H5Error::PointSelectionError { reason } => seq![("reason"@, reason@)],
            H5Error::DimensionBoundsError { index, max, dim_name } => {
                let base = seq![("index"@, decimal(index as nat)), ("max"@, decimal(max as nat))];
                match dim_name {
                    Some(name) => base.push(("dim_name"@, name@)),
                    None => base,
                }
            },
            H5Error::DimensionOverflow { dims } => seq![("dims"@, decimal_list(dims@))],
            H5Error::InvalidHandle { handle_id, description } => seq![("handle_id"@, signed_decimal(handle_id as int)), ("description"@, description@)],
            H5Error::HandleClosed { handle_type } => seq![("handle_type"@, handle_type@)],
            H5Error::HandleCreateError { object_type, reason } => seq![("object_type"@, object_type@), ("reason"@, reason@)],
            H5Error::FilterNotAvailable { filter_name } => seq![("filter_name"@, filter_name@)],
            H5Error::FilterRegistrationError { filter_name, reason } => seq![("filter_name"@, filter_name@), ("reason"@, reason@)],
            H5Error::FilterConfigError { filter_name, reason } => seq![("filter_name"@, filter_name@), ("reason"@, reason@)],
            H5Error::FilterOperationError { filter_name, operation } => seq![("filter_name"@, filter_name@), ("operation"@, operation@)],
            H5Error::HDF5Error(_) => seq![("source"@, "hdf5_c_library"@)],
            H5Error::Internal { message } => seq![("message"@, message@)],
            H5Error::NotImplemented { feature } => seq![("feature"@, feature@)],
            H5Error::InvalidArgument { arg_name, reason } => seq![("arg_name"@, arg_name@), ("reason"@, reason@)],
            H5Error::OutOfMemory => seq![],
        }
    }

    /// Returns structured fields for logging.
    pub fn log_fields(&self) -> (r: Vec<(&'static str, String)>)
        ensures
            r@.len() == self.spec_log_fields().len(),
            log_view(r@) == self.spec_log_fields(),
    {
        let r: Vec<(&'static str, String)> = match self {
            H5Error::FileNotFound { path } => vec![("path", path.clone())],
            H5Error::FileOpenError { path, reason } => vec![("path", path.clone()), ("reason", reason.clone())],
            H5Error::FileCreateError { path, reason } => vec![("path", path.clone()), ("reason", reason.clone())],
            H5Error::FileIOError { path, operation } => vec![("path", path.clone()), ("operation", operation.clone())],
            H5Error::InvalidAccessMode { mode } => vec![("mode", mode.clone())],
            H5Error::DatasetNotFound { name } => vec![("name", name.clone())],
            H5Error::DatasetShapeMismatch { expected, found } => vec![("expected", decimal_list_string(expected)), ("found", decimal_list_string(found))],
            H5Error::DatasetSpaceError { reason } => vec![("reason", reason.clone())],
            H5Error::ChunkSizeError { reason } => vec![("reason", reason.clone())],
            H5Error::DatasetReadError { name, reason } => vec![("name", name.clone()), ("reason", reason.clone())],
            H5Error::DatasetWriteError { name, reason } => vec![("name", name.clone()), ("reason", reason.clone())],
            H5Error::AttributeNotFound { name } => vec![("name", name.clone())],
            H5Error::AttributeReadError { name, reason } => vec![("name", name.clone()), ("reason", reason.clone())],
            H5Error::AttributeWriteError { name, reason } => vec![("name", name.clone()), ("reason", reason.clone())],
            H5Error::AttributeDeleteError { name, reason } => vec![("name", name.clone()), ("reason", reason.clone())],
            H5Error::GroupNotFound { path } => vec![("path", path.clone())],
            H5Error::GroupCreateError { path, reason } => vec![("path", path.clone()), ("reason", reason.clone())],
            H5Error::InvalidGroupPath { path, reason } => vec![("path", path.clone()), ("reason", reason.clone())],
            H5Error::GroupIterationError { reason } => vec![("reason", reason.clone())],
            H5Error::TypeConversionError { from, to } => vec![("from", from.clone()), ("to", to.clone())],
            H5Error::InvalidDatatype { datatype, operation } => vec![("datatype", datatype.clone()), ("operation", operation.clone())],
            H5Error::DatatypeCreateError { reason } => vec![("reason", reason.clone())],
            H5Error::SelectionError { reason } => vec![("reason", reason.clone())],
            H5Error::HyperslabError { reason } => vec![("reason", reason.clone())],
            H5Error::PointSelectionError { reason } => vec![("reason", reason.clone())],
            H5Error::DimensionBoundsError { index, max, dim_name } => {
                let mut fields = vec![("index", decimal_string(*index as u64)), ("max", decimal_string(*max as u64))];
                match dim_name {
                    Some(name) => {
                        fields.push(("dim_name", name.clone()));
                    },
                    None => {},
                }
                fields
            },
            H5Error::DimensionOverflow { dims } => vec![("dims", decimal_list_string(dims))],
            H5Error::InvalidHandle { handle_id, description } => vec![("handle_id", signed_decimal_string(*handle_id)), ("description", description.clone())],
            H5Error::HandleClosed { handle_type } => vec![("handle_type", handle_type.clone())],
            H5Error::HandleCreateError { object_type, reason } => vec![("object_type", object_type.clone()), ("reason", reason.clone())],
            H5Error::FilterNotAvailable { filter_name } => vec![("filter_name", filter_name.clone())],
            H5Error::FilterRegistrationError { filter_name, reason } => vec![("filter_name", filter_name.clone()), ("reason", reason.clone())],
            H5Error::FilterConfigError { filter_name, reason } => vec![("filter_name", filter_name.clone()), ("reason", reason.clone())],
            H5Error::FilterOperationError { filter_name, operation } => vec![("filter_name", filter_name.clone()), ("operation", operation.clone())],
            H5Error::HDF5Error(_) => vec![("source", String::from_str("hdf5_c_library"))],
            H5Error::Internal { message } => vec![("message", message.clone())],
            H5Error::NotImplemented { feature } => vec![("feature", feature.clone())],
            H5Error::InvalidArgument { arg_name, reason } => vec![("arg_name", arg_name.clone()), ("reason", reason.clone())],
            H5Error::OutOfMemory => Vec::new(),
        };
        proof {
            assert(log_view(r@) =~= self.spec_log_fields());
        }
        r
    }

    /// Every text of an error begins with the tag `[CATEGORY-NNNN] `, where the code has four
    /// digits, and goes on with a message that is not empty.
    pub proof fn law_render_tagged(self, expanded: Option<ExpandedErrorStack>)
        ensures
            ({
                let d = match expanded {
                    Some(x) => Some(x.spec_description()),
                    None => None,
                };
                &&& self.spec_render(d) == "["@ + self.spec_category().name() + "-"@ + decimal(
                    self.spec_code(),
                ) + "] "@ + self.spec_detail(d)
                &&& decimal(self.spec_code()).len() == 4
                &&& self.spec_detail(d).len() > 0
            }),
    {
        self.law_code_within_category();
        lemma_decimal_four_digits(self.spec_code());
        if let Some(x) = expanded {
            x.lemma_description_not_empty();
        }
        match self {
            H5Error::FileNotFound { .. } => {
                reveal_strlit("File not found: ");
            },
            H5Error::FileOpenError { .. } => {
                reveal_strlit("Failed to open file '");
            },
            H5Error::FileCreateError { .. } => {
                reveal_strlit("Failed to create file '");
            },
            H5Error::FileIOError { .. } => {
                reveal_strlit("I/O error during ");
            },
            H5Error::InvalidAccessMode { .. } => {
                reveal_strlit("Invalid access mode: ");
            },
            H5Error::DatasetNotFound { .. } => {
                reveal_strlit("Dataset not found: ");
            },
            H5Error::DatasetShapeMismatch { .. } => {
                reveal_strlit("Dataset shape mismatch: expected ");
            },
            H5Error::DatasetSpaceError { .. } => {
                reveal_strlit("Dataset space error: ");
            },
            H5Error::ChunkSizeError { .. } => {
                reveal_strlit("Chunk size error: ");
            },
            H5Error::DatasetReadError { .. } => {
                reveal_strlit("Failed to read dataset '");
            },
            H5Error::DatasetWriteError { .. } => {
                reveal_strlit("Failed to write dataset '");
            },
            H5Error::AttributeNotFound { .. } => {
                reveal_strlit("Attribute not found: ");
            },
            H5Error::AttributeReadError { .. } => {
                reveal_strlit("Failed to read attribute '");
            },
            H5Error::AttributeWriteError { .. } => {
                reveal_strlit("Failed to write attribute '");
            },
            H5Error::AttributeDeleteError { .. } => {
                reveal_strlit("Failed to delete attribute '");
            },
            H5Error::GroupNotFound { .. } => {
                reveal_strlit("Group not found: ");
            },
            H5Error::GroupCreateError { .. } => {
                reveal_strlit("Failed to create group '");
            },
            H5Error::InvalidGroupPath { .. } => {
                reveal_strlit("Invalid group path '");
            },
            H5Error::GroupIterationError { .. } => {
                reveal_strlit("Group iteration error: ");
            },
            H5Error::TypeConversionError { .. } => {
                reveal_strlit("Type conversion error: cannot convert ");
            },
            H5Error::InvalidDatatype { .. } => {
                reveal_strlit("Invalid datatype '");
            },
            H5Error::DatatypeCreateError { .. } => {
                reveal_strlit("Datatype creation error: ");
            },
            H5Error::SelectionError { .. } => {
                reveal_strlit("Selection error: ");
            },
            H5Error::HyperslabError { .. } => {
                reveal_strlit("Hyperslab error: ");
            },
            H5Error::PointSelectionError { .. } => {
                reveal_strlit("Point selection error: ");
            },
            H5Error::DimensionBoundsError { .. } => {
                reveal_strlit("Dimension '"); reveal_strlit("Dimension bounds error: index ");
            },
            H5Error::DimensionOverflow { .. } => {
                reveal_strlit("Dimension overflow: size calculation overflowed for dims ");
            },
            H5Error::InvalidHandle { .. } => {
                reveal_strlit("Invalid handle ");
            },
            H5Error::HandleClosed { .. } => {
                reveal_strlit("Handle already closed: ");
            },
            H5Error::HandleCreateError { .. } => {
                reveal_strlit("Failed to create ");
            },
            H5Error::FilterNotAvailable { .. } => {
                reveal_strlit("Filter not available: ");
            },
            H5Error::FilterRegistrationError { .. } => {
                reveal_strlit("Failed to register filter '");
            },
            H5Error::FilterConfigError { .. } => {
                reveal_strlit("Filter configuration error for '");
            },
            H5Error::FilterOperationError { .. } => {
                reveal_strlit("Filter operation '");
            },
            H5Error::HDF5Error(_) => {
                reveal_strlit("HDF5 C library error (unable to expand stack)");
            },
            H5Error::Internal { .. } => {
                reveal_strlit("Internal error: ");
            },
            H5Error::NotImplemented { .. } => {
                reveal_strlit("Feature not implemented: ");
            },
            H5Error::InvalidArgument { .. } => {
                reveal_strlit("Invalid argument '");
            },
            H5Error::OutOfMemory => {
                reveal_strlit("Out of memory");
            },
        }
    }

    /// The text of this error: `[CATEGORY-NNNN] ` and then what went wrong. For an error
    /// of the C library, what went wrong is the description of the expanded error stack,
    /// where the stack could be expanded.
    pub open spec fn spec_render(self, expanded: Option<Seq<char>>) -> Seq<char> {
        "["@ + self.spec_category().name() + "-"@ + decimal(self.spec_code()) + "] "@
            + self.spec_detail(expanded)
    }

    /// What went wrong, without the code.
    pub open spec fn spec_detail(self, expanded: Option<Seq<char>>) -> Seq<char> {
        match self {
            H5Error::FileNotFound { path } => "File not found: "@ + path@,
            H5Error::FileOpenError { path, reason } => "Failed to open file '"@ + path@ + "': "@ + reason@,
            H5Error::FileCreateError { path, reason } => "Failed to create file '"@ + path@ + "': "@ + reason@,
            H5Error::FileIOError { path, operation } => "I/O error during "@ + operation@ + " on file '"@ + path@ + "'"@,
            H5Error::InvalidAccessMode { mode } => "Invalid access mode: "@ + mode@,
            H5Error::DatasetNotFound { name } => "Dataset not found: "@ + name@,
            H5Error::DatasetShapeMismatch { expected, found } => "Dataset shape mismatch: expected "@ + decimal_list(expected@) + ", found "@ + decimal_list(found@),
            H5Error::DatasetSpaceError { reason } => "Dataset space error: "@ + reason@,
            H5Error::ChunkSizeError { reason } => "Chunk size error: "@ + reason@,
            H5Error::DatasetReadError { name, reason } => "Failed to read dataset '"@ + name@ + "': "@ + reason@,
            H5Error::DatasetWriteError { name, reason } => "Failed to write dataset '"@ + name@ + "': "@ + reason@,
            H5Error::AttributeNotFound { name } => "Attribute not found: "@ + name@,
            H5Error::AttributeReadError { name, reason } => "Failed to read attribute '"@ + name@ + "': "@ + reason@,
            H5Error::AttributeWriteError { name, reason } => "Failed to write attribute '"@ + name@ + "': "@ + reason@,
            H5Error::AttributeDeleteError { name, reason } => "Failed to delete attribute '"@ + name@ + "': "@ + reason@,
            H5Error::GroupNotFound { path } => "Group not found: "@ + path@,
            H5Error::GroupCreateError { path, reason } => "Failed to create group '"@ + path@ + "': "@ + reason@,
            H5Error::InvalidGroupPath { path, reason } => "Invalid group path '"@ + path@ + "': "@ + reason@,
            H5Error::GroupIterationError { reason } => "Group iteration error: "@ + reason@,
            H5Error::TypeConversionError { from, to } => "Type conversion error: cannot convert "@ + from@ + " to "@ + to@,
            H5Error::InvalidDatatype { datatype, operation } => "Invalid datatype '"@ + datatype@ + "' for operation "@ + operation@,
            H5Error::DatatypeCreateError { reason } => "Datatype creation error: "@ + reason@,
            H5Error::SelectionError { reason } => "Selection error: "@ + reason@,
            H5Error::HyperslabError { reason } => "Hyperslab error: "@ + reason@,
            H5Error::PointSelectionError { reason } => "Point selection error: "@ + reason@,
            H5Error::DimensionBoundsError { index, max, dim_name } => match dim_name {
                Some(name) => "Dimension '"@ + name@ + "' bounds error: index "@ + decimal(index as nat)
                    + " out of bounds for max "@ + decimal(max as nat),
                None => "Dimension bounds error: index "@ + decimal(index as nat)
                    + " out of bounds for max "@ + decimal(max as nat),
            },
            H5Error::DimensionOverflow { dims } => "Dimension overflow: size calculation overflowed for dims "@ + decimal_list(dims@),
            H5Error::InvalidHandle { handle_id, description } => "Invalid handle "@ + signed_decimal(handle_id as int) + ": "@ + description@,
            H5Error::HandleClosed { handle_type } => "Handle already closed: "@ + handle_type@,
            H5Error::HandleCreateError { object_type, reason } => "Failed to create "@ + object_type@ + " handle: "@ + reason@,
            H5Error::FilterNotAvailable { filter_name } => "Filter not available: "@ + filter_name@,
            H5Error::FilterRegistrationError { filter_name, reason } => "Failed to register filter '"@ + filter_name@ + "': "@ + reason@,
            H5Error::FilterConfigError { filter_name, reason } => "Filter configuration error for '"@ + filter_name@ + "': "@ + reason@,
            H5Error::FilterOperationError { filter_name, operation } => "Filter operation '"@ + operation@ + "' failed for "@ + filter_name@,
            H5Error::HDF5Error(_) => match expanded {
                Some(d) => d,
                None => "HDF5 C library error (unable to expand stack)"@,
            },
            H5Error::Internal { message } => "Internal error: "@ + message@,
            H5Error::NotImplemented { feature } => "Feature not implemented: "@ + feature@,
            H5Error::InvalidArgument { arg_name, reason } => "Invalid argument '"@ + arg_name@ + "': "@ + reason@,
            H5Error::OutOfMemory => "Out of memory"@,
        }
    }

    /// The text of this error, as its `Display` shows it. `expanded` is the expansion of
    /// the held error stack of the C library, where that could be expanded.
    #[verifier::rlimit(40)]
    pub fn render(&self, expanded: Option<&ExpandedErrorStack>) -> (s: String)
        ensures
            s@ == self.spec_render(
                match expanded {
                    Some(x) => Some(x.spec_description()),
                    None => None,
                },
            ),
    {
        let mut s = String::new();
        s.append("[");
        s.append(self.category().as_str());
        s.append("-");
        push_decimal(&mut s, self.code() as u64);
        s.append("] ");
        let ghost head = s@;
        match self {
            H5Error::FileNotFound { path } => {
                s.append("File not found: ");
                s.append(path.as_str());
            },
            H5Error::FileOpenError { path, reason } => {
                s.append("Failed to open file '");
                s.append(path.as_str());
                s.append("': ");
                s.append(reason.as_str());
            },
            H5Error::FileCreateError { path, reason } => {
                s.append("Failed to create file '");
                s.append(path.as_str());
                s.append("': ");
                s.append(reason.as_str());
            },
            H5Error::FileIOError { path, operation } => {
                s.append("I/O error during ");
                s.append(operation.as_str());
                s.append(" on file '");
                s.append(path.as_str());
                s.append("'");
            },
            H5Error::InvalidAccessMode { mode } => {
                s.append("Invalid access mode: ");
                s.append(mode.as_str());
            },
            H5Error::DatasetNotFound { name } => {
                s.append("Dataset not found: ");
                s.append(name.as_str());
            },
            H5Error::DatasetShapeMismatch { expected, found } => {
                s.append("Dataset shape mismatch: expected ");
                let t = decimal_list_string(expected);
                s.append(t.as_str());
                s.append(", found ");
                let t = decimal_list_string(found);
                s.append(t.as_str());
            },
            H5Error::DatasetSpaceError { reason } => {
                s.append("Dataset space error: ");
                s.append(reason.as_str());
            },
            H5Error::ChunkSizeError { reason } => {
                s.append("Chunk size error: ");
                s.append(reason.as_str());
            },
            H5Error::DatasetReadError { name, reason } => {
                s.append("Failed to read dataset '");
                s.append(name.as_str());
                s.append("': ");
                s.append(reason.as_str());
            },
            H5Error::DatasetWriteError { name, reason } => {
                s.append("Failed to write dataset '");
                s.append(name.as_str());
                s.append("': ");
                s.append(reason.as_str());
            },
            H5Error::AttributeNotFound { name } => {
                s.append("Attribute not found: ");
                s.append(name.as_str());
            },
            H5Error::AttributeReadError { name, reason } => {
                s.append("Failed to read attribute '");
                s.append(name.as_str());
                s.append("': ");
                s.append(reason.as_str());
            },
            H5Error::AttributeWriteError { name, reason } => {
                s.append("Failed to write attribute '");
                s.append(name.as_str());
                s.append("': ");
                s.append(reason.as_str());
            },
            H5Error::AttributeDeleteError { name, reason } => {
                s.append("Failed to delete attribute '");
                s.append(name.as_str());
                s.append("': ");
                s.append(reason.as_str());
            },
            H5Error::GroupNotFound { path } => {
                s.append("Group not found: ");
                s.append(path.as_str());
            },
            H5Error::GroupCreateError { path, reason } => {
                s.append("Failed to create group '");
                s.append(path.as_str());
                s.append("': ");
                s.append(reason.as_str());
            },
            H5Error::InvalidGroupPath { path, reason } => {
                s.append("Invalid group path '");
                s.append(path.as_str());
                s.append("': ");
                s.append(reason.as_str());
            },
            H5Error::GroupIterationError { reason } => {
                s.append("Group iteration error: ");
                s.append(reason.as_str());
            },
            H5Error::TypeConversionError { from, to } => {
                s.append("Type conversion error: cannot convert ");
                s.append(from.as_str());
                s.append(" to ");
                s.append(to.as_str());
            },
            H5Error::InvalidDatatype { datatype, operation } => {
                s.append("Invalid datatype '");
                s.append(datatype.as_str());
                s.append("' for operation ");
                s.append(operation.as_str());
            },
            H5Error::DatatypeCreateError { reason } => {
                s.append("Datatype creation error: ");
                s.append(reason.as_str());
            },
            H5Error::SelectionError { reason } => {
                s.append("Selection error: ");
                s.append(reason.as_str());
            },
            H5Error::HyperslabError { reason } => {
                s.append("Hyperslab error: ");
                s.append(reason.as_str());
            },
            H5Error::PointSelectionError { reason } => {
                s.append("Point selection error: ");
                s.append(reason.as_str());
            },
            H5Error::DimensionBoundsError { index, max, dim_name } => {
                match dim_name {
                    Some(name) => {
                        s.append("Dimension '");
                        s.append(name.as_str());
                        s.append("' bounds error: index ");
                    },
                    None => {
                        s.append("Dimension bounds error: index ");
                    },
                }
                push_decimal(&mut s, *index as u64);
                s.append(" out of bounds for max ");
                push_decimal(&mut s, *max as u64);
            },
            H5Error::DimensionOverflow { dims } => {
                s.append("Dimension overflow: size calculation overflowed for dims ");
                let t = decimal_list_string(dims);
                s.append(t.as_str());
            },
            H5Error::InvalidHandle { handle_id, description } => {
                s.append("Invalid handle ");
                push_signed_decimal(&mut s, *handle_id);
                s.append(": ");
                s.append(description.as_str());
            },
            H5Error::HandleClosed { handle_type } => {
                s.append("Handle already closed: ");
                s.append(handle_type.as_str());
            },
            H5Error::HandleCreateError { object_type, reason } => {
                s.append("Failed to create ");
                s.append(object_type.as_str());
                s.append(" handle: ");
                s.append(reason.as_str());
            },
            H5Error::FilterNotAvailable { filter_name } => {
                s.append("Filter not available: ");
                s.append(filter_name.as_str());
            },
            H5Error::FilterRegistrationError { filter_name, reason } => {
                s.append("Failed to register filter '");
                s.append(filter_name.as_str());
                s.append("': ");
                s.append(reason.as_str());
            },
            H5Error::FilterConfigError { filter_name, reason } => {
                s.append("Filter configuration error for '");
                s.append(filter_name.as_str());
                s.append("': ");
                s.append(reason.as_str());
            },
            H5Error::FilterOperationError { filter_name, operation } => {
                s.append("Filter operation '");
                s.append(operation.as_str());
                s.append("' failed for ");
                s.append(filter_name.as_str());
            },
            H5Error::HDF5Error(_) => {
                match expanded {
                    Some(x) => {
                        s.append(x.description());
                    },
                    None => {
                        s.append("HDF5 C library error (unable to expand stack)");
                    },
                }
            },
            H5Error::Internal { message } => {
                s.append("Internal error: ");
                s.append(message.as_str());
            },
            H5Error::NotImplemented { feature } => {
                s.append("Feature not implemented: ");
                s.append(feature.as_str());
            },
            H5Error::InvalidArgument { arg_name, reason } => {
                s.append("Invalid argument '");
                s.append(arg_name.as_str());
                s.append("': ");
                s.append(reason.as_str());
            },
            H5Error::OutOfMemory => {
                s.append("Out of memory");
            },
        }
        proof {
            let d = match expanded {
                Some(x) => Some(x.spec_description()),
                None => None,
            };
            assert(s@ =~= head + self.spec_detail(d));
        }
        s
    }
}

/// The keys and texts of logging fields.
pub open spec fn log_view(v: Seq<(&'static str, String)>) -> Seq<(Seq<char>, Seq<char>)> {
    v.map_values(|p: (&'static str, String)| (p.0@, p.1@))
}


// ===========================================================================
// Error stacks of the C library
// ===========================================================================

/// An error stack of the C library, held by its identifier.
#[derive(Clone, Debug)]
pub struct ErrorStack(Handle);

impl ErrorStack {
    pub closed spec fn spec_handle(&self) -> Handle {
        self.0
    }

    /// Wraps the handle of an error stack.
    pub fn from_handle(handle: Handle) -> (s: ErrorStack)
        ensures
            s.spec_handle() == handle,
    {
        ErrorStack(handle)
    }

    /// The handle of this error stack.
    pub fn handle(&self) -> (h: &Handle)
        ensures
            *h == self.spec_handle(),
    {
        &self.0
    }

    /// A short text that names the object: `<error stack id=N>`.
    pub fn short_repr(&self) -> (s: Option<String>)
        ensures
            s matches Some(t) && t@ == "<error stack id="@ + signed_decimal(
                self.spec_handle().spec_id() as int,
            ) + ">"@,
    {
        let mut t = String::from_str("<error stack id=");
        push_signed_decimal(&mut t, self.0.id());
        t.append(">");
        Some(t)
    }

    /// The error stack that the C library reported as current (`stack_id`), taken over
    /// when the library also reported that identifier as a valid user identifier.
    pub fn from_current(stack_id: hid_t, is_valid_user_id: bool) -> (r: Result<ErrorStack, H5Error>)
        ensures
            is_valid_user_id <==> r is Ok,
            r matches Ok(s) ==> s.spec_handle().spec_id() == stack_id,
            r matches Err(e) ==> (e matches H5Error::Internal { message } && message@
                == Handle::invalid_id_message(stack_id)),
    {
        match Handle::try_new(stack_id, is_valid_user_id) {
            Ok(h) => Ok(ErrorStack(h)),
            Err(e) => Err(e),
        }
    }
}

/// One frame of an expanded error stack.
#[derive(Debug)]
pub struct ErrorFrame {
    desc: String,
    func: String,
    major: String,
    minor: String,
    description: String,
}

impl ErrorFrame {
    #[verifier::type_invariant]
    spec fn frame_inv(self) -> bool {
        self.description@ == self.func@ + "(): "@ + self.desc@
    }

    pub closed spec fn spec_desc(self) -> Seq<char> {
        self.desc@
    }

    pub closed spec fn spec_func(self) -> Seq<char> {
        self.func@
    }

    pub closed spec fn spec_major(self) -> Seq<char> {
        self.major@
    }

    pub closed spec fn spec_minor(self) -> Seq<char> {
        self.minor@
    }

    /// `func(): desc`.
    pub open spec fn spec_description(self) -> Seq<char> {
        self.spec_func() + "(): "@ + self.spec_desc()
    }

    /// `Error in func(): desc [major: minor]`.
    pub open spec fn spec_detail(self) -> Seq<char> {
        "Error in "@ + self.spec_func() + "(): "@ + self.spec_desc() + " ["@ + self.spec_major()
            + ": "@ + self.spec_minor() + "]"@
    }

    pub fn new(desc: &str, func: &str, major: &str, minor: &str) -> (f: ErrorFrame)
        ensures
            f.spec_desc() == desc@,
            f.spec_func() == func@,
            f.spec_major() == major@,
            f.spec_minor() == minor@,
    {
        let mut description = func.to_owned();
        description.append("(): ");
        description.append(desc);
        ErrorFrame {
            desc: desc.to_owned(),
            func: func.to_owned(),
            major: major.to_owned(),
            minor: minor.to_owned(),
            description,
        }
    }

    pub fn desc(&self) -> (s: &str)
        ensures
            s@ == self.spec_desc(),
    {
        self.desc.as_str()
    }

    pub fn description(&self) -> (s: &str)
        ensures
            s@ == self.spec_description(),
    {
        proof {
            use_type_invariant(self);
        }
        self.description.as_str()
    }

    pub fn detail(&self) -> (s: Option<String>)
        ensures
            s matches Some(t) && t@ == self.spec_detail(),
    {
        let mut t = String::from_str("Error in ");
        t.append(self.func.as_str());
        t.append("(): ");
        t.append(self.desc.as_str());
        t.append(" [");
        t.append(self.major.as_str());
        t.append(": ");
        t.append(self.minor.as_str());
        t.append("]");
        Some(t)
    }
}

impl Clone for ErrorFrame {
    fn clone(&self) -> (f: Self)
        ensures
            f.spec_desc() == self.spec_desc(),
            f.spec_func() == self.spec_func(),
            f.spec_major() == self.spec_major(),
            f.spec_minor() == self.spec_minor(),
    {
        proof {
            use_type_invariant(self);
        }
        ErrorFrame {
            desc: self.desc.clone(),
            func: self.func.clone(),
            major: self.major.clone(),
            minor: self.minor.clone(),
            description: self.description.clone(),
        }
    }
}

/// The frames of an error stack of the C library, top first, with a one-line summary.
#[derive(Debug)]
pub struct ExpandedErrorStack {
    frames: Vec<ErrorFrame>,
    description: Option<String>,
}

/// The summary of a list of frames: nothing for none; the top frame's description for one;
/// otherwise the top frame's description, `": "` and the bottom frame's message.
pub open spec fn summary_of(frames: Seq<ErrorFrame>) -> Option<Seq<char>> {
    if frames.len() == 0 {
        None
    } else if frames.len() == 1 {
        Some(frames[0].spec_description())
    } else {
        Some(frames[0].spec_description() + ": "@ + frames.last().spec_desc())
    }
}

impl ExpandedErrorStack {
    #[verifier::type_invariant]
    spec fn stack_inv(self) -> bool {
        match self.description {
            Some(d) => summary_of(self.frames@) == Some(d@),
            None => summary_of(self.frames@) is None,
        }
    }

    pub closed spec fn spec_frames(self) -> Seq<ErrorFrame> {
        self.frames@
    }

    /// The summary, or `unknown library error` when there are no frames.
    pub open spec fn spec_description(self) -> Seq<char> {
        match summary_of(self.spec_frames()) {
            Some(d) => d,
            None => "unknown library error"@,
        }
    }

    /// The description of a stack is never empty.
    pub proof fn lemma_description_not_empty(self)
        ensures
            self.spec_description().len() > 0,
    {
        reveal_strlit("unknown library error");
        reveal_strlit("(): ");
    }

    /// An expanded stack with no frames.
    pub fn new() -> (s: ExpandedErrorStack)
        ensures
            s.spec_frames() == Seq::<ErrorFrame>::empty(),
    {
        ExpandedErrorStack { frames: Vec::new(), description: None }
    }

    /// Adds a frame below the others and updates the summary.
    pub fn push(&mut self, frame: ErrorFrame)
        ensures
            final(self).spec_frames() == old(self).spec_frames().push(frame),
    {
        let mut taken = ExpandedErrorStack::new();
        core::mem::swap(&mut taken, self);
        let ExpandedErrorStack { mut frames, description: _ } = taken;
        frames.push(frame);
        let n = frames.len();
        let mut top_desc = frames[0].description().to_owned();
        if n > 1 {
            top_desc.append(": ");
            top_desc.append(frames[n - 1].desc());
        }
        proof {
            assert(summary_of(frames@) == Some(top_desc@));
        }
        *self = ExpandedErrorStack { frames, description: Some(top_desc) };
    }

    /// The top frame, if any.
    pub fn top(&self) -> (f: Option<&ErrorFrame>)
        ensures
            self.spec_frames().len() == 0 ==> f is None,
            self.spec_frames().len() > 0 ==> f == Some(&self.spec_frames()[0]),
    {
        if self.frames.len() == 0 {
            None
        } else {
            Some(&self.frames[0])
        }
    }

    /// The one-line summary of the stack.
    pub fn description(&self) -> (s: &str)
        ensures
            s@ == self.spec_description(),
    {
        proof {
            use_type_invariant(self);
        }
        match &self.description {
            None => "unknown library error",
            Some(d) => d.as_str(),
        }
    }

    /// The detail of the top frame, if any.
    pub fn detail(&self) -> (s: Option<String>)
        ensures
            self.spec_frames().len() == 0 ==> s is None,
            self.spec_frames().len() > 0 ==> (s matches Some(t) && t@
                == self.spec_frames()[0].spec_detail()),
    {
        match self.top() {
            None => None,
            Some(f) => f.detail(),
        }
    }

    /// The number of frames.
    pub fn len(&self) -> (n: usize)
        ensures
            n == self.spec_frames().len(),
    {
        self.frames.len()
    }

    /// Whether there are no frames.
    pub fn is_empty(&self) -> (b: bool)
        ensures
            b <==> self.spec_frames().len() == 0,
    {
        self.frames.len() == 0
    }

    /// The frames, top first.
    pub fn frames(&self) -> (f: &[ErrorFrame])
        ensures
            f@ == self.spec_frames(),
    {
        self.frames.as_slice()
    }
}

impl Default for ExpandedErrorStack {
    fn default() -> (s: Self)
        ensures
            s.spec_frames() == Seq::<ErrorFrame>::empty(),
    {
        ExpandedErrorStack::new()
    }
}

// ===========================================================================
// Expanding an error stack
// ===========================================================================

/// One frame of an error stack as a walk of the C library reports it: its description and
/// function name, and the texts of its major and minor messages, each of which the library
/// may fail to give.
pub struct WalkedFrame {
    pub desc: String,
    pub func: String,
    pub major: Result<String, H5Error>,
    pub minor: Result<String, H5Error>,
}

/// Whether both messages of a walked frame could be read.
pub open spec fn walked_ok(w: WalkedFrame) -> bool {
    w.major is Ok && w.minor is Ok
}

/// The error of a walked frame whose messages could not both be read: that of the major
/// message when it failed, else that of the minor one.
pub open spec fn walked_error(w: WalkedFrame) -> H5Error {
    match w.major {
        Err(e) => e,
        Ok(_) => w.minor->Err_0,
    }
}

/// Whether `f` is the expanded frame of the walked frame `w`.
pub open spec fn expands_to(w: WalkedFrame, f: ErrorFrame) -> bool {
    &&& f.spec_desc() == w.desc@
    &&& f.spec_func() == w.func@
    &&& w.major matches Ok(m) && f.spec_major() == m@
    &&& w.minor matches Ok(m) && f.spec_minor() == m@
}

impl ErrorStack {
    /// Expands this error stack, given the frames that the C library reported when it
    /// walked the stack downward: each frame becomes an `ErrorFrame`, in order. The first
    /// frame whose messages could not be read stops the expansion with its error.
    pub fn expand(self, walked: Vec<WalkedFrame>) -> (r: Result<ExpandedErrorStack, H5Error>)
        ensures
            r is Ok <==> forall|i: int| 0 <= i < walked@.len() ==> walked_ok(#[trigger] walked@[i]),
            r matches Ok(s) ==> s.spec_frames().len() == walked@.len() && forall|i: int|
                0 <= i < walked@.len() ==> expands_to(walked@[i], #[trigger] s.spec_frames()[i]),
            r matches Err(e) ==> exists|k: int|
                0 <= k < walked@.len() && !walked_ok(#[trigger] walked@[k]) && e == walked_error(
                    walked@[k],
                ) && forall|i: int| 0 <= i < k ==> walked_ok(#[trigger] walked@[i]),
    {
        let ghost all = walked@;
        let mut rest = walked;
        let mut stack = ExpandedErrorStack::new();
        let ghost mut k: int = 0;
        while rest.len() > 0
            invariant
                all == walked@,
                0 <= k <= all.len(),
                rest@ == all.skip(k),
                stack.spec_frames().len() == k,
                forall|i: int| 0 <= i < k ==> walked_ok(#[trigger] all[i]),
                forall|i: int| 0 <= i < k ==> expands_to(all[i], #[trigger] stack.spec_frames()[i]),
            decreases rest.len(),
        {
            let w = rest.remove(0);
            proof {
                assert(w == all[k]);
                assert(rest@ =~= all.skip(k + 1));
            }
            let WalkedFrame { desc, func, major, minor } = w;
            let major = match major {
                Ok(m) => m,
                Err(e) => {
                    proof {
                        assert(!walked_ok(all[k]) && e == walked_error(all[k]));
                    }
                    return Err(e);
                },
            };
            let minor = match minor {
                Ok(m) => m,
                Err(e) => {
                    proof {
                        assert(!walked_ok(all[k]) && e == walked_error(all[k]));
                    }
                    return Err(e);
                },
            };
            let frame = ErrorFrame::new(desc.as_str(), func.as_str(), major.as_str(), minor.as_str());
            let ghost before = stack.spec_frames();
            stack.push(frame);
            proof {
                assert(stack.spec_frames()[k] == frame);
                assert forall|i: int| 0 <= i < k implies #[trigger] stack.spec_frames()[i] == before[i] by {}
                k = k + 1;
            }
        }
        Ok(stack)
    }
}

// ===========================================================================
// Checking status codes of the C library
// ===========================================================================

/// Return values of the C library that can signal failure.
pub trait H5ErrorCode: Copy + Sized {
    /// Whether `value` signals failure.
    spec fn spec_is_err_code(value: Self) -> bool;

    fn is_err_code(value: Self) -> (r: bool)
        ensures
            r == Self::spec_is_err_code(value),
    ;
}

impl H5ErrorCode for u64 {
    open spec fn spec_is_err_code(value: u64) -> bool {
        value == 0
    }

    fn is_err_code(value: u64) -> (r: bool) {
        value == 0
    }
}

impl H5ErrorCode for i32 {
    open spec fn spec_is_err_code(value: i32) -> bool {
        value < 0
    }

    fn is_err_code(value: i32) -> (r: bool) {
        value < 0
    }
}

impl H5ErrorCode for i64 {
    open spec fn spec_is_err_code(value: i64) -> bool {
        value < 0
    }

    fn is_err_code(value: i64) -> (r: bool) {
        value < 0
    }
}

impl H5ErrorCode for libc::ssize_t {
    open spec fn spec_is_err_code(value: libc::ssize_t) -> bool {
        value < 0
    }

    fn is_err_code(value: libc::ssize_t) -> (r: bool) {
        value < 0
    }
}

/// Whether `value` signals failure.
pub fn is_err_code<T: H5ErrorCode>(value: T) -> (r: bool)
    ensures
        r == T::spec_is_err_code(value),
{
    T::is_err_code(value)
}

/// Passes `value` through when it does not signal failure; otherwise returns the error
/// that `query` produces (the current error stack of the C library).
pub fn h5check<T: H5ErrorCode, F: FnOnce() -> H5Error>(value: T, query: F) -> (r: Result<T, H5Error>)
    requires
        T::spec_is_err_code(value) ==> query.requires(()),
    ensures
        T::spec_is_err_code(value) <==> r is Err,
        r matches Ok(v) ==> v == value,
        r matches Err(e) ==> query.ensures((), e),
{
    if T::is_err_code(value) {
        Err(query())
    } else {
        Ok(value)
    }
}

impl H5Error {
    /// The error for the current error stack of the C library: the stack itself when it
    /// could be taken over, otherwise an internal error saying that it could not.
    pub fn query(current: Result<ErrorStack, H5Error>) -> (e: H5Error)
        ensures
            current matches Ok(s) ==> e == H5Error::HDF5Error(s),
            current is Err ==> (e matches H5Error::Internal { message } && message@
                == "Could not get error stack"@),
    {
        match current {
            Ok(stack) => H5Error::hdf5_error(stack),
            Err(_) => H5Error::internal("Could not get error stack"),
        }
    }
}

impl From<String> for H5Error {
    fn from(desc: String) -> (e: H5Error) {
        H5Error::Internal { message: desc }
    }
}

impl vstd::std_specs::convert::FromSpecImpl<String> for H5Error {
    open spec fn obeys_from_spec() -> bool {
        true
    }

    open spec fn from_spec(desc: String) -> H5Error {
        H5Error::Internal { message: desc }
    }
}

impl From<&str> for H5Error {
    fn from(desc: &str) -> (e: H5Error)
        ensures
            e matches H5Error::Internal { message } && message@ == desc@,
    {
        H5Error::internal(desc)
    }
}

impl vstd::std_specs::convert::FromSpecImpl<&str> for H5Error {
    /// The error's message is a new string with the same text, which no spec value names,
    /// so the general statement is not made; `from` states the text in its own `ensures`.
    open spec fn obeys_from_spec() -> bool {
        false
    }

    open spec fn from_spec(desc: &str) -> H5Error {
        vstd::pervasive::arbitrary()
    }
}

/// The shape errors of `ndarray`, carried as they are.
#[verifier::external_type_specification]
#[verifier::external_body]
pub struct ExShapeError(ndarray::ShapeError);

/// The kinds of shape errors of `ndarray` (its `ErrorKind`).
#[derive(Clone, Copy, Debug, PartialEq, Eq, Structural)]
pub enum ShapeErrorKind {
    IncompatibleShape,
    IncompatibleLayout,
    RangeLimited,
    OutOfBounds,
    Unsupported,
    Overflow,
}

/// The kind of a shape error of `ndarray`, as `ShapeError::kind` gives it.
pub uninterp spec fn shape_error_kind(err: ndarray::ShapeError) -> ShapeErrorKind;

/// The name of a kind of shape error, as `ndarray` prints it with `{:?}`.
pub open spec fn shape_error_kind_name(k: ShapeErrorKind) -> Seq<char> {
    match k {
        ShapeErrorKind::IncompatibleShape => "IncompatibleShape"@,
        ShapeErrorKind::IncompatibleLayout => "IncompatibleLayout"@,
        ShapeErrorKind::RangeLimited => "RangeLimited"@,
        ShapeErrorKind::OutOfBounds => "OutOfBounds"@,
        ShapeErrorKind::Unsupported => "Unsupported"@,
        ShapeErrorKind::Overflow => "Overflow"@,
    }
}

/// The description of a kind of shape error that `ndarray` prints.
pub open spec fn shape_error_description(k: ShapeErrorKind) -> Seq<char> {
    match k {
        ShapeErrorKind::IncompatibleShape => "incompatible shapes"@,
        ShapeErrorKind::IncompatibleLayout => "incompatible memory layout"@,
        ShapeErrorKind::RangeLimited => "the shape does not fit in type limits"@,
        ShapeErrorKind::OutOfBounds => "out of bounds indexing"@,
        ShapeErrorKind::Unsupported => "unsupported operation"@,
        ShapeErrorKind::Overflow => "arithmetic overflow"@,
    }
}

/// The text of a shape error of kind `k`: `ShapeError/<kind>: <description>`.
pub open spec fn shape_error_display(k: ShapeErrorKind) -> Seq<char> {
    "ShapeError/"@ + shape_error_kind_name(k) + ": "@ + shape_error_description(k)
}

/// The text of a shape error of `ndarray`, as its `Display` writes it: `ShapeError/`, the
/// kind of the error as `{:?}` prints it, `: ` and the description of that kind.
#[verifier::external_body]
fn shape_error_text(err: &ndarray::ShapeError) -> (s: String)
    ensures
        s@ == shape_error_display(shape_error_kind(*err)),
{
    format!("{err}")
}

impl From<ndarray::ShapeError> for H5Error {
    /// An internal error whose message is `shape error: ` and the text of `err`.
    fn from(err: ndarray::ShapeError) -> (e: H5Error)
        ensures
            e matches H5Error::Internal { message } && message@ == "shape error: "@
                + shape_error_display(shape_error_kind(err)),
    {
        let text = shape_error_text(&err);
        let mut message = String::from_str("shape error: ");
        message.append(text.as_str());
        H5Error::Internal { message }
    }
}

impl vstd::std_specs::convert::FromSpecImpl<ndarray::ShapeError> for H5Error {
    /// The message is a new string, which no spec value names, so the general statement
    /// is not made; `from` states the message in its own `ensures`.
    open spec fn obeys_from_spec() -> bool {
        false
    }

    open spec fn from_spec(err: ndarray::ShapeError) -> H5Error {
        vstd::pervasive::arbitrary()
    }
}

/// A signed status of the C library signals failure exactly when it is negative, and an
/// unsigned one exactly when it is zero.
pub proof fn law_error_codes(a: i32, b: i64, c: libc::ssize_t, d: u64)
    ensures
        <i32 as H5ErrorCode>::spec_is_err_code(a) <==> a < 0,
        <i64 as H5ErrorCode>::spec_is_err_code(b) <==> b < 0,
        <libc::ssize_t as H5ErrorCode>::spec_is_err_code(c) <==> c < 0,
        <u64 as H5ErrorCode>::spec_is_err_code(d) <==> d == 0,
{
}

} // verus!
