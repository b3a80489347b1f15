use crate::constant_pool::types::Version;
use crate::errors::ClassFileError;
use crate::shared::u16_be;
use vstd::prelude::*;

verus! {

/// The lowest major version this decoder accepts.
pub const MAJOR_LOWEST: u16 = 0x2d;

/// The highest major version of the long-term-stable range: up to here any
/// minor version is accepted.
pub const MAJOR_STABLE_HIGHEST: u16 = 0x37;

/// The highest major version this decoder knows. Majors above the stable
/// range and up to here may carry a preview flag, so their minor version
/// must be 0 or the preview sentinel.
pub const MAJOR_HIGHEST: u16 = 0x42;

/// The minor version that marks a preview release.
pub const MINOR_PREVIEW: u16 = 0xffff;

/// What reading the version fields of `data` yields: the minor version
/// stands at bytes 4 and 5, the major version at bytes 6 and 7, and the
/// major must fall in the accepted range, with the minor constrained to 0
/// or the preview sentinel when the major is preview-eligible. A buffer too
/// short for the fields is a fault, apart from the version errors.
pub open spec fn spec_read_version(data: Seq<u8>) -> Result<Version, ClassFileError> {
    if data.len() < 8 {
        Err(ClassFileError::Unknown)
    } else {
        let minor = u16_be(data[4], data[5]);
        let major = u16_be(data[6], data[7]);
        if major < MAJOR_LOWEST {
            Err(ClassFileError::MajorVersionTooLow)
        } else if major <= MAJOR_STABLE_HIGHEST {
            Ok(Version { major, minor })
        } else if major <= MAJOR_HIGHEST {
            if minor == 0 || minor == MINOR_PREVIEW {
                Ok(Version { major, minor })
            } else {
                Err(ClassFileError::InvalidMinorVersion)
            }
        } else {
            Err(ClassFileError::MajorVersionTooHigh)
        }
    }
}

/// Reads and validates the version pair at bytes 4 to 7.
pub fn read_version(data: &[u8]) -> (r: Result<Version, ClassFileError>)
    ensures
        (match spec_read_version(data@) {
            Ok(v) => r matches Ok(rv) && rv == v,
            Err(e) => r matches Err(re) && re == e,
        }),
{
    if data.len() < 8 {
        return Err(ClassFileError::Unknown);
    }
    let minor = crate::shared::to_u16(data, 4, 5);
    let major = crate::shared::to_u16(data, 6, 7);

    if major < MAJOR_LOWEST {
        Err(ClassFileError::MajorVersionTooLow)
    } else if major <= MAJOR_STABLE_HIGHEST {
        Ok(Version { major, minor })
    } else if major <= MAJOR_HIGHEST {
        if minor == 0 || minor == MINOR_PREVIEW {
            Ok(Version { major, minor })
        } else {
            Err(ClassFileError::InvalidMinorVersion)
        }
    } else {
        Err(ClassFileError::MajorVersionTooHigh)
    }
}

} // verus!
