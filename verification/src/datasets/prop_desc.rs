//! Property descriptions: a property's type, default and current values, and
//! the FORM that constrains it.
use vstd::prelude::*;
use crate::consts::DataType;
use crate::error::{ProtoError, ProtoErrorView};
use super::prop_value::{PropValue, PropValueView, decode_prop_value, prop_value_read};
use super::reader::{get_u16, get_u32, get_u8, rd_u16, rd_u32, rd_u8};

verus! {

/// The FORM field of a property description. `NoForm` stands for a flag
/// that carries no form data.
#[derive(Clone, Debug, PartialEq)]
pub enum PropForm {
    NoForm,
    /// Range form (flag `0x01`).
    Range { minimum: PropValue, maximum: PropValue, step: PropValue },
    /// Enumeration form (flag `0x02`).
    Enum { values: Vec<PropValue> },
}

/// A FORM field with its values as views.
pub enum PropFormView {
    NoForm,
    Range { minimum: PropValueView, maximum: PropValueView, step: PropValueView },
    Enum { values: Seq<PropValueView> },
}

/// The views of a run of property values.
pub open spec fn values_view(v: Seq<PropValue>) -> Seq<PropValueView> {
    v.map_values(|p: PropValue| p@)
}

impl View for PropForm {
    type V = PropFormView;

    open spec fn view(&self) -> PropFormView {
        match self {
            PropForm::NoForm => PropFormView::NoForm,
            PropForm::Range { minimum, maximum, step } => PropFormView::Range {
                minimum: minimum@,
                maximum: maximum@,
                step: step@,
            },
            PropForm::Enum { values } => PropFormView::Enum { values: values_view(values@) },
        }
    }
}

/// Reading `n` values of data type `sel` one after another.
pub open spec fn values_read(b: Seq<u8>, sel: u16, n: nat) -> Result<
    (Seq<PropValueView>, Seq<u8>),
    ProtoErrorView,
>
    decreases n,
{
    if n == 0 {
        Ok((Seq::empty(), b))
    } else {
        match prop_value_read(b, sel) {
            Err(e) => Err(e),
            Ok((v, r)) => match values_read(r, sel, (n - 1) as nat) {
                Err(e) => Err(e),
                Ok((vs, r2)) => Ok((seq![v] + vs, r2)),
            },
        }
    }
}

/// `prefix` placed before the values of a successful read.
pub open spec fn after_prefix(
    prefix: Seq<PropValueView>,
    res: Result<(Seq<PropValueView>, Seq<u8>), ProtoErrorView>,
) -> Result<(Seq<PropValueView>, Seq<u8>), ProtoErrorView> {
    match res {
        Ok((vs, r)) => Ok((prefix + vs, r)),
        Err(e) => Err(e),
    }
}

/// Reading the FORM for data type `sel` and form flag `flag`: a range is
/// three values, an enumeration a `u16` count then that many values, and any
/// other flag carries no form data.
pub open spec fn form_read(b: Seq<u8>, sel: u16, flag: u8) -> Result<(PropFormView, Seq<u8>), ProtoErrorView> {
    if flag == 1 {
        match prop_value_read(b, sel) {
            Err(e) => Err(e),
            Ok((lo, r1)) => match prop_value_read(r1, sel) {
                Err(e) => Err(e),
                Ok((hi, r2)) => match prop_value_read(r2, sel) {
                    Err(e) => Err(e),
                    Ok((st, r3)) => Ok((PropFormView::Range { minimum: lo, maximum: hi, step: st }, r3)),
                },
            },
        }
    } else if flag == 2 {
        match rd_u16(b) {
            Err(e) => Err(e),
            Ok((n, r)) => match values_read(r, sel, n as nat) {
                Err(e) => Err(e),
                Ok((vs, r2)) => Ok((PropFormView::Enum { values: vs }, r2)),
            },
        }
    } else {
        Ok((PropFormView::NoForm, b))
    }
}

fn decode_form(buf: &mut &[u8], selector: u16, form_flag: u8) -> (r: Result<PropForm, ProtoError>)
    ensures
        match form_read(old(buf)@, selector, form_flag) {
            Ok((v, rest)) => r matches Ok(p) && p@ == v && final(buf)@ == rest,
            Err(e) => r matches Err(x) && x@ == e,
        },
{
    if form_flag == 1 {
        let minimum = match decode_prop_value(buf, selector) {
            Ok(v) => v,
            Err(e) => return Err(e),
        };
        let maximum = match decode_prop_value(buf, selector) {
            Ok(v) => v,
            Err(e) => return Err(e),
        };
        let step = match decode_prop_value(buf, selector) {
            Ok(v) => v,
            Err(e) => return Err(e),
        };
        Ok(PropForm::Range { minimum, maximum, step })
    } else if form_flag == 2 {
        let n16 = match get_u16(buf) {
            Ok(n) => n,
            Err(e) => return Err(e),
        };
        let count = n16 as usize;
        let ghost start = buf@;
        let mut values: Vec<PropValue> = Vec::new();
        let mut i: usize = 0;
        proof {
            assert(values_view(values@) =~= Seq::<PropValueView>::empty());
            assert(after_prefix(Seq::empty(), values_read(start, selector, count as nat))
                =~= values_read(start, selector, count as nat)) by {
                match values_read(start, selector, count as nat) {
                    Ok((vs, r)) => assert(Seq::<PropValueView>::empty() + vs =~= vs),
                    Err(e) => {},
                }
            }
        }
        while i < count
            invariant
                0 <= i <= count,
                form_flag == 2,
                count == n16,
                rd_u16(old(buf)@) == Ok::<(u16, Seq<u8>), ProtoErrorView>((n16, start)),
                values_read(start, selector, count as nat) == after_prefix(
                    values_view(values@),
                    values_read(buf@, selector, (count - i) as nat),
                ),
            decreases count - i,
        {
            let ghost before = buf@;
            let v = match decode_prop_value(buf, selector) {
                Ok(v) => v,
                Err(e) => {
                    proof {
                        assert(values_read(before, selector, (count - i) as nat) matches Err(f)
                            && f == e@);
                    }
                    return Err(e);
                },
            };
            proof {
                let k = (count - i - 1) as nat;
                assert(values_view(values@.push(v)) =~= values_view(values@).push(v@));
                match values_read(buf@, selector, k) {
                    Ok((vs, r)) => {
                        assert(values_view(values@) + (seq![v@] + vs) =~= values_view(values@).push(v@) + vs);
                    },
                    Err(e) => {},
                }
            }
            values.push(v);
            i = i + 1;
        }
        Ok(PropForm::Enum { values })
    } else {
        Ok(PropForm::NoForm)
    }
}

/// A device property description.
#[derive(Clone, Debug, PartialEq)]
pub struct DevicePropDesc {
    pub device_property_code: u16,
    pub data_type: DataType,
    pub get_set: u8,
    pub factory_default_value: PropValue,
    pub current_value: PropValue,
    pub form_flag: u8,
    pub form: PropForm,
}

/// A device property description with its values as views.
pub struct DevicePropDescView {
    pub device_property_code: u16,
    pub data_type: DataType,
    pub get_set: u8,
    pub factory_default_value: PropValueView,
    pub current_value: PropValueView,
    pub form_flag: u8,
    pub form: PropFormView,
}

impl View for DevicePropDesc {
    type V = DevicePropDescView;

    open spec fn view(&self) -> DevicePropDescView {
        DevicePropDescView {
            device_property_code: self.device_property_code,
            data_type: self.data_type,
            get_set: self.get_set,
            factory_default_value: self.factory_default_value@,
            current_value: self.current_value@,
            form_flag: self.form_flag,
            form: self.form@,
        }
    }
}

/// Reading a device property description: code, data type, get/set flag,
/// the default and current values of that type, the form flag, the form.
pub open spec fn device_prop_desc_read(b: Seq<u8>) -> Result<(DevicePropDescView, Seq<u8>), ProtoErrorView> {
    match rd_u16(b) {
        Err(e) => Err(e),
        Ok((code, b1)) => match rd_u16(b1) {
            Err(e) => Err(e),
            Ok((dt, b2)) => match rd_u8(b2) {
                Err(e) => Err(e),
                Ok((gs, b3)) => match prop_value_read(b3, dt) {
                    Err(e) => Err(e),
                    Ok((dflt, b4)) => match prop_value_read(b4, dt) {
                        Err(e) => Err(e),
                        Ok((cur, b5)) => match rd_u8(b5) {
                            Err(e) => Err(e),
                            Ok((ff, b6)) => match form_read(b6, dt, ff) {
                                Err(e) => Err(e),
                                Ok((form, b7)) => Ok(
                                    (
                                        DevicePropDescView {
                                            device_property_code: code,
                                            data_type: DataType(dt),
                                            get_set: gs,
                                            factory_default_value: dflt,
                                            current_value: cur,
                                            form_flag: ff,
                                            form,
                                        },
                                        b7,
                                    ),
                                ),
                            },
                        },
                    },
                },
            },
        },
    }
}

impl DevicePropDesc {
    /// Decode a device property description (see [`device_prop_desc_read`]).
    pub fn decode(buf: &mut &[u8]) -> (r: Result<Self, ProtoError>)
        ensures
            match device_prop_desc_read(old(buf)@) {
                Ok((v, rest)) => r matches Ok(p) && p@ == v && final(buf)@ == rest,
                Err(e) => r matches Err(x) && x@ == e,
            },
    {
        let device_property_code = match get_u16(buf) {
            Ok(v) => v,
            Err(e) => return Err(e),
        };
        let data_type = match get_u16(buf) {
            Ok(v) => DataType(v),
            Err(e) => return Err(e),
        };
        let get_set = match get_u8(buf) {
            Ok(v) => v,
            Err(e) => return Err(e),
        };
        let factory_default_value = match decode_prop_value(buf, data_type.0) {
            Ok(v) => v,
            Err(e) => return Err(e),
        };
        let current_value = match decode_prop_value(buf, data_type.0) {
            Ok(v) => v,
            Err(e) => return Err(e),
        };
        let form_flag = match get_u8(buf) {
            Ok(v) => v,
            Err(e) => return Err(e),
        };
        let form = match decode_form(buf, data_type.0, form_flag) {
            Ok(v) => v,
            Err(e) => return Err(e),
        };
        Ok(
            DevicePropDesc {
                device_property_code,
                data_type,
                get_set,
                factory_default_value,
                current_value,
                form_flag,
                form,
            },
        )
    }
}

/// An object property description: like a device property description, with
/// a group code in place of the current value.
#[derive(Clone, Debug, PartialEq)]
pub struct ObjectPropDesc {
    pub object_property_code: u16,
    pub data_type: DataType,
    pub get_set: u8,
    pub factory_default_value: PropValue,
    pub group_code: u32,
    pub form_flag: u8,
    pub form: PropForm,
}

/// An object property description with its values as views.
pub struct ObjectPropDescView {
    pub object_property_code: u16,
    pub data_type: DataType,
    pub get_set: u8,
    pub factory_default_value: PropValueView,
    pub group_code: u32,
    pub form_flag: u8,
    pub form: PropFormView,
}

impl View for ObjectPropDesc {
    type V = ObjectPropDescView;

    open spec fn view(&self) -> ObjectPropDescView {
        ObjectPropDescView {
            object_property_code: self.object_property_code,
            data_type: self.data_type,
            get_set: self.get_set,
            factory_default_value: self.factory_default_value@,
            group_code: self.group_code,
            form_flag: self.form_flag,
            form: self.form@,
        }
    }
}

/// Reading an object property description.
pub open spec fn object_prop_desc_read(b: Seq<u8>) -> Result<(ObjectPropDescView, Seq<u8>), ProtoErrorView> {
    match rd_u16(b) {
        Err(e) => Err(e),
        Ok((code, b1)) => match rd_u16(b1) {
            Err(e) => Err(e),
            Ok((dt, b2)) => match rd_u8(b2) {
                Err(e) => Err(e),
                Ok((gs, b3)) => match prop_value_read(b3, dt) {
                    Err(e) => Err(e),
                    Ok((dflt, b4)) => match rd_u32(b4) {
                        Err(e) => Err(e),
                        Ok((group, b5)) => match rd_u8(b5) {
                            Err(e) => Err(e),
                            Ok((ff, b6)) => match form_read(b6, dt, ff) {
                                Err(e) => Err(e),
                                Ok((form, b7)) => Ok(
                                    (
                                        ObjectPropDescView {
                                            object_property_code: code,
                                            data_type: DataType(dt),
                                            get_set: gs,
                                            factory_default_value: dflt,
                                            group_code: group,
                                            form_flag: ff,
                                            form,
                                        },
                                        b7,
                                    ),
                                ),
                            },
                        },
                    },
                },
            },
        },
    }
}

impl ObjectPropDesc {
    /// Decode an object property description (see [`object_prop_desc_read`]).
    pub fn decode(buf: &mut &[u8]) -> (r: Result<Self, ProtoError>)
        ensures
            match object_prop_desc_read(old(buf)@) {
                Ok((v, rest)) => r matches Ok(p) && p@ == v && final(buf)@ == rest,
                Err(e) => r matches Err(x) && x@ == e,
            },
    {
        let object_property_code = match get_u16(buf) {
            Ok(v) => v,
            Err(e) => return Err(e),
        };
        let data_type = match get_u16(buf) {
            Ok(v) => DataType(v),
            Err(e) => return Err(e),
        };
        let get_set = match get_u8(buf) {
            Ok(v) => v,
            Err(e) => return Err(e),
        };
        let factory_default_value = match decode_prop_value(buf, data_type.0) {
            Ok(v) => v,
            Err(e) => return Err(e),
        };
        let group_code = match get_u32(buf) {
            Ok(v) => v,
            Err(e) => return Err(e),
        };
        let form_flag = match get_u8(buf) {
            Ok(v) => v,
            Err(e) => return Err(e),
        };
        let form = match decode_form(buf, data_type.0, form_flag) {
            Ok(v) => v,
            Err(e) => return Err(e),
        };
        Ok(
            ObjectPropDesc {
                object_property_code,
                data_type,
                get_set,
                factory_default_value,
                group_code,
                form_flag,
                form,
            },
        )
    }
}

} // verus!
