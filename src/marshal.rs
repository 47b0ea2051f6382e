//! Values handed across the JNI boundary: Java class names and signatures,
//! array sizes, and the diagnostic reported when a call fails.

use vstd::prelude::*;

verus! {

/// JNI name of the Java class of an editor installation.
pub const INSTALLATION_CLASS: &'static str = "net/wooga/uvm/Installation";

/// Constructor signature of that class: a location and a version string.
pub const INSTALLATION_CONSTRUCTOR: &'static str = "(Ljava/io/File;Ljava/lang/String;)V";

/// JNI name of `java.io.File`.
pub const FILE_CLASS: &'static str = "java/io/File";

/// Constructor signature of `java.io.File` from a path string.
pub const FILE_CONSTRUCTOR: &'static str = "(Ljava/lang/String;)V";

/// Name and signature of `java.io.File.getPath`.
pub const FILE_GET_PATH: &'static str = "getPath";
pub const FILE_GET_PATH_SIGNATURE: &'static str = "()Ljava/lang/String;";

/// Name and signature of `Installation.getLocation`.
pub const INSTALLATION_GET_LOCATION: &'static str = "getLocation";
pub const INSTALLATION_GET_LOCATION_SIGNATURE: &'static str = "()Ljava/io/File;";

/// Name and signature of `Component.value`, the integer code of a component.
pub const COMPONENT_VALUE: &'static str = "value";
pub const COMPONENT_VALUE_SIGNATURE: &'static str = "()I";

/// The size of a Java array that holds `len` elements. Java array sizes and
/// indices are `jsize`, a signed 32-bit integer: no array holds more than
/// `i32::MAX` elements, and every index below a size that fits fits too.
pub fn java_array_length(len: usize) -> (r: Option<i32>)
    ensures
        len <= i32::MAX ==> r == Some(len as i32),
        len > i32::MAX ==> r is None,
{
    if len <= i32::MAX as usize {
        Some(len as i32)
    } else {
        None
    }
}

/// The lines written to standard error when a call fails: the error's
/// description, then its source where it has one.
pub fn diagnostic_lines(description: String, source: Option<String>) -> (r: Vec<String>)
    ensures
        source is None ==> r@ == seq![description],
        source is Some ==> r@ == seq![description, source->Some_0],
{
    let mut lines: Vec<String> = Vec::new();
    lines.push(description);
    match source {
        Some(s) => {
            lines.push(s);
        },
        None => {},
    }
    lines
}

} // verus!
