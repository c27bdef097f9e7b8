//! PTP/MTP datasets: explicit decode/encode of each dataset, field by field
//! in wire order, with every read bounds-checked by the codec.
use vstd::prelude::*;

pub mod reader;
mod elems;
pub mod prop_value;

pub use prop_value::{PropValue, PropValueView, decode_prop_value, prop_value_bytes, prop_value_read};
mod prop_desc;

pub use prop_desc::{
    DevicePropDesc, DevicePropDescView, ObjectPropDesc, ObjectPropDescView, PropForm, PropFormView,
    device_prop_desc_read, form_read, object_prop_desc_read, values_read, values_view,
};
mod device_info;
mod storage_info;
mod object_info;

pub use device_info::{DeviceInfo, DeviceInfoView, device_info_read};
pub use storage_info::{StorageInfo, StorageInfoView, storage_info_read};
pub use object_info::{ObjectInfo, ObjectInfoView, date_bytes, object_info_bytes, object_info_read, rd_date};
mod values;

pub use values::{StringValue, Uint16Array, Uint32Array, Uint64Value};
mod laws;
mod value_laws;

pub use value_laws::{
    lemma_prop_value_read_type, lemma_prop_value_roundtrip, lemma_u16_array_roundtrip, lemma_u32_array_roundtrip, prop_value_readable,
    prop_value_type,
};

pub use laws::{
    date_encodable, lemma_device_info_layout, lemma_device_prop_desc_layout, lemma_object_info_roundtrip,
    lemma_object_prop_desc_range_layout, lemma_rd_date_of, lemma_rd_u16_array_of, lemma_storage_info_layout,
    lemma_string_value_roundtrip, lemma_uint64_value_roundtrip, object_info_encodable, ptp_string_fits,
    u16_array_fits, value_of_type,
};
