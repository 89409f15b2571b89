//! The commands, one module each.

mod allow_overwrite;
mod erase_16;
mod erase_6;
mod format_medium;
mod load_unload;
mod locate_10;
mod locate_16;
mod prevent_allow_medium_removal;
mod read_16;
mod read_6;
mod read_block_limits;
mod read_position;
mod read_reverse_6;
mod recover_buffered_data;
mod report_density_support;
mod rewind;
mod set_capacity;
mod space_16;
mod space_6;
mod verify_16;
mod verify_6;
mod write_16;
mod write_6;
mod write_filemarks_16;
mod write_filemarks_6;

pub use allow_overwrite::AllowOverwrite;
pub use erase_16::Erase16;
pub use erase_6::Erase6;
pub use format_medium::FormatMedium;
pub use load_unload::LoadUnload;
pub use locate_10::Locate10;
pub use locate_16::Locate16;
pub use prevent_allow_medium_removal::PreventAllowMediumRemoval;
pub use read_16::Read16;
pub use read_6::Read6;
pub use read_block_limits::ReadBlockLimits;
pub use read_block_limits::ReadBlockLimitsOutput;
pub use read_block_limits::ReadBlockLimitsOutputRange;
pub use read_position::ReadPosition;
pub use read_position::ReadPositionOutput;
pub use read_position::ReadPositionOutputExtendedForm;
pub use read_position::ReadPositionOutputLongForm;
pub use read_position::ReadPositionOutputShortForm;
pub use read_reverse_6::ReadReverse6;
pub use recover_buffered_data::RecoverBufferedData;
pub use report_density_support::ReportDensitySupport;
pub use report_density_support::ReportDensitySupportOutput;
pub use report_density_support::ReportDensitySupportOutputDensity;
pub use report_density_support::ReportDensitySupportOutputMedium;
pub use rewind::Rewind;
pub use set_capacity::SetCapacity;
pub use space_16::Space16;
pub use space_16::Space16Positioning;
pub use space_6::Space6;
pub use verify_16::Verify16;
pub use verify_6::Verify6;
pub use write_16::Write16;
pub use write_6::Write6;
pub use write_filemarks_16::WriteFilemarks16;
pub use write_filemarks_6::WriteFilemarks6;
