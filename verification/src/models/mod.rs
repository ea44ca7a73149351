//! Plain data records shared by discovery and transfer.
pub mod device_info;
pub mod file_info;
pub mod transfer_info;

pub use device_info::DeviceInfo;
pub use device_info::DeviceInfoView;
pub use file_info::FileInfo;
pub use file_info::FileInfoView;
pub use transfer_info::TransferInfo;
pub use transfer_info::TransferInfoView;
pub use transfer_info::TransferOp;
pub use transfer_info::TransferStatus;
pub use transfer_info::TransferStatusView;
