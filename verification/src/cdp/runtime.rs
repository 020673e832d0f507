//! Types of the Runtime protocol domain: execution contexts and remote
//! object mirrors.

use vstd::prelude::*;
use vstd::string::StringExecFns;

verus! {

/// Identifier of an execution context.
#[derive(Debug, Clone, Copy, PartialEq, Eq, Structural, Hash)]
pub struct ExecutionContextId(pub u32);

/// Unique script identifier.
#[derive(Debug, Clone, PartialEq, Eq, Hash)]
pub struct ScriptId(pub String);

/// Unique object identifier.
#[derive(Debug, Clone, PartialEq, Eq, Hash)]
pub struct RemoteObjectId(pub String);

/// A primitive value that cannot be JSON-stringified, carried by its wire
/// name (`Infinity`, `NaN`, ...).
#[derive(Debug, Clone, PartialEq, Eq, Hash)]
pub struct UnserializableValue(pub String);

/// The `Runtime.enable` command (no parameters).
#[derive(Debug)]
pub struct EnableParams {}

impl EnableParams {
    /// The method identifier of this command.
    pub fn identifier() -> (r: String)
        ensures
            r@ == "Runtime.enable"@,
    {
        "Runtime.enable".to_owned()
    }
}

/// Object type of a remote object mirror.
#[derive(Debug, Clone, PartialEq, Eq, Structural, Hash)]
pub enum RemoteObjectType {
    /// An object.
    Object,
    /// A function.
    Function,
    /// The undefined value.
    Undefined,
    /// A string.
    String,
    /// A number.
    Number,
    /// A boolean.
    Boolean,
    /// A symbol.
    Symbol,
    /// A bigint.
    Bigint,
    /// A WebAssembly value.
    Wasm,
}

impl RemoteObjectType {
    /// The wire name of the object type.
    pub fn as_str(&self) -> (r: &'static str)
        ensures
            *self is Object ==> r@ == "object"@,
            *self is Function ==> r@ == "function"@,
            *self is Undefined ==> r@ == "undefined"@,
            *self is String ==> r@ == "string"@,
            *self is Number ==> r@ == "number"@,
            *self is Boolean ==> r@ == "boolean"@,
            *self is Symbol ==> r@ == "symbol"@,
            *self is Bigint ==> r@ == "bigint"@,
            *self is Wasm ==> r@ == "wasm"@,
    {
        match self {
            RemoteObjectType::Object => "object",
            RemoteObjectType::Function => "function",
            RemoteObjectType::Undefined => "undefined",
            RemoteObjectType::String => "string",
            RemoteObjectType::Number => "number",
            RemoteObjectType::Boolean => "boolean",
            RemoteObjectType::Symbol => "symbol",
            RemoteObjectType::Bigint => "bigint",
            RemoteObjectType::Wasm => "wasm",
        }
    }
}

/// Object subtype hint of a remote object mirror.
#[derive(Debug, Clone, PartialEq, Eq, Structural, Hash)]
pub enum RemoteObjectSubtype {
    /// An array.
    Array,
    /// The null value.
    Null,
    /// A DOM node.
    Node,
    /// A regular expression.
    Regexp,
    /// A date.
    Date,
    /// A map collection.
    MapColl,
    /// A set collection.
    SetColl,
    /// A weak map collection.
    Weakmap,
    /// A weak set collection.
    Weakset,
    /// An iterator.
    Iterator,
    /// A generator.
    Generator,
    /// An error object.
    Error,
    /// A proxy.
    Proxy,
    /// A promise.
    Promise,
    /// A typed array.
    Typedarray,
    /// An array buffer.
    Arraybuffer,
    /// A data view.
    Dataview,
    /// A 32-bit integer WebAssembly value.
    I32,
    /// A 64-bit integer WebAssembly value.
    I64,
    /// A 32-bit float WebAssembly value.
    F32,
    /// A 64-bit float WebAssembly value.
    F64,
    /// A 128-bit vector WebAssembly value.
    V128,
    /// An external reference WebAssembly value.
    Externref,
}

impl RemoteObjectSubtype {
    /// The wire name of the object subtype.
    pub fn as_str(&self) -> (r: &'static str)
        ensures
            *self is Array ==> r@ == "array"@,
            *self is Null ==> r@ == "null"@,
            *self is Node ==> r@ == "node"@,
            *self is Regexp ==> r@ == "regexp"@,
            *self is Date ==> r@ == "date"@,
            *self is MapColl ==> r@ == "map"@,
            *self is SetColl ==> r@ == "set"@,
            *self is Weakmap ==> r@ == "weakmap"@,
            *self is Weakset ==> r@ == "weakset"@,
            *self is Iterator ==> r@ == "iterator"@,
            *self is Generator ==> r@ == "generator"@,
            *self is Error ==> r@ == "error"@,
            *self is Proxy ==> r@ == "proxy"@,
            *self is Promise ==> r@ == "promise"@,
            *self is Typedarray ==> r@ == "typedarray"@,
            *self is Arraybuffer ==> r@ == "arraybuffer"@,
            *self is Dataview ==> r@ == "dataview"@,
            *self is I32 ==> r@ == "i32"@,
            *self is I64 ==> r@ == "i64"@,
            *self is F32 ==> r@ == "f32"@,
            *self is F64 ==> r@ == "f64"@,
            *self is V128 ==> r@ == "v128"@,
            *self is Externref ==> r@ == "externref"@,
    {
        match self {
            RemoteObjectSubtype::Array => "array",
            RemoteObjectSubtype::Null => "null",
            RemoteObjectSubtype::Node => "node",
            RemoteObjectSubtype::Regexp => "regexp",
            RemoteObjectSubtype::Date => "date",
            RemoteObjectSubtype::MapColl => "map",
            RemoteObjectSubtype::SetColl => "set",
            RemoteObjectSubtype::Weakmap => "weakmap",
            RemoteObjectSubtype::Weakset => "weakset",
            RemoteObjectSubtype::Iterator => "iterator",
            RemoteObjectSubtype::Generator => "generator",
            RemoteObjectSubtype::Error => "error",
            RemoteObjectSubtype::Proxy => "proxy",
            RemoteObjectSubtype::Promise => "promise",
            RemoteObjectSubtype::Typedarray => "typedarray",
            RemoteObjectSubtype::Arraybuffer => "arraybuffer",
            RemoteObjectSubtype::Dataview => "dataview",
            RemoteObjectSubtype::I32 => "i32",
            RemoteObjectSubtype::I64 => "i64",
            RemoteObjectSubtype::F32 => "f32",
            RemoteObjectSubtype::F64 => "f64",
            RemoteObjectSubtype::V128 => "v128",
            RemoteObjectSubtype::Externref => "externref",
        }
    }
}

/// The JSON-stringified header of a custom formatter preview.
#[derive(Debug)]
pub struct CustomPreview {
    /// The result of the formatter's header call, as JSON ML text.
    pub header: String,
    /// The object id of the body getter, when the formatter has a body.
    pub body_getter_id: Option<RemoteObjectId>,
}

impl CustomPreview {
    /// A custom preview with the given header and no body getter.
    pub fn new(header: String) -> (r: CustomPreview)
        ensures
            r.header == header,
            r.body_getter_id is None,
    {
        CustomPreview { header, body_getter_id: None }
    }
}

/// Object type of an abbreviated preview.
#[derive(Debug, Clone, PartialEq, Eq, Structural, Hash)]
pub enum ObjectPreviewType {
    /// An object.
    Object,
    /// A function.
    Function,
    /// The undefined value.
    Undefined,
    /// A string.
    String,
    /// A number.
    Number,
    /// A boolean.
    Boolean,
    /// A symbol.
    Symbol,
    /// A bigint.
    Bigint,
}

impl ObjectPreviewType {
    /// The wire name of the preview type.
    pub fn as_str(&self) -> (r: &'static str)
        ensures
            *self is Object ==> r@ == "object"@,
            *self is Function ==> r@ == "function"@,
            *self is Undefined ==> r@ == "undefined"@,
            *self is String ==> r@ == "string"@,
            *self is Number ==> r@ == "number"@,
            *self is Boolean ==> r@ == "boolean"@,
            *self is Symbol ==> r@ == "symbol"@,
            *self is Bigint ==> r@ == "bigint"@,
    {
        match self {
            ObjectPreviewType::Object => "object",
            ObjectPreviewType::Function => "function",
            ObjectPreviewType::Undefined => "undefined",
            ObjectPreviewType::String => "string",
            ObjectPreviewType::Number => "number",
            ObjectPreviewType::Boolean => "boolean",
            ObjectPreviewType::Symbol => "symbol",
            ObjectPreviewType::Bigint => "bigint",
        }
    }
}

/// Object subtype hint of an abbreviated preview.
#[derive(Debug, Clone, PartialEq, Eq, Structural, Hash)]
pub enum ObjectPreviewSubtype {
    /// An array.
    Array,
    /// The null value.
    Null,
    /// A DOM node.
    Node,
    /// A regular expression.
    Regexp,
    /// A date.
    Date,
    /// A map collection.
    MapColl,
    /// A set collection.
    SetColl,
    /// A weak map collection.
    Weakmap,
    /// A weak set collection.
    Weakset,
    /// An iterator.
    Iterator,
    /// A generator.
    Generator,
    /// An error object.
    Error,
}

impl ObjectPreviewSubtype {
    /// The wire name of the preview subtype.
    pub fn as_str(&self) -> (r: &'static str)
        ensures
            *self is Array ==> r@ == "array"@,
            *self is Null ==> r@ == "null"@,
            *self is Node ==> r@ == "node"@,
            *self is Regexp ==> r@ == "regexp"@,
            *self is Date ==> r@ == "date"@,
            *self is MapColl ==> r@ == "map"@,
            *self is SetColl ==> r@ == "set"@,
            *self is Weakmap ==> r@ == "weakmap"@,
            *self is Weakset ==> r@ == "weakset"@,
            *self is Iterator ==> r@ == "iterator"@,
            *self is Generator ==> r@ == "generator"@,
            *self is Error ==> r@ == "error"@,
    {
        match self {
            ObjectPreviewSubtype::Array => "array",
            ObjectPreviewSubtype::Null => "null",
            ObjectPreviewSubtype::Node => "node",
            ObjectPreviewSubtype::Regexp => "regexp",
            ObjectPreviewSubtype::Date => "date",
            ObjectPreviewSubtype::MapColl => "map",
            ObjectPreviewSubtype::SetColl => "set",
            ObjectPreviewSubtype::Weakmap => "weakmap",
            ObjectPreviewSubtype::Weakset => "weakset",
            ObjectPreviewSubtype::Iterator => "iterator",
            ObjectPreviewSubtype::Generator => "generator",
            ObjectPreviewSubtype::Error => "error",
        }
    }
}

/// Object type of one previewed property.
#[derive(Debug, Clone, PartialEq, Eq, Structural, Hash)]
pub enum PropertyPreviewType {
    /// An object.
    Object,
    /// A function.
    Function,
    /// The undefined value.
    Undefined,
    /// A string.
    String,
    /// A number.
    Number,
    /// A boolean.
    Boolean,
    /// A symbol.
    Symbol,
    /// An accessor property.
    Accessor,
    /// A bigint.
    Bigint,
}

impl PropertyPreviewType {
    /// The wire name of the property type.
    pub fn as_str(&self) -> (r: &'static str)
        ensures
            *self is Object ==> r@ == "object"@,
            *self is Function ==> r@ == "function"@,
            *self is Undefined ==> r@ == "undefined"@,
            *self is String ==> r@ == "string"@,
            *self is Number ==> r@ == "number"@,
            *self is Boolean ==> r@ == "boolean"@,
            *self is Symbol ==> r@ == "symbol"@,
            *self is Accessor ==> r@ == "accessor"@,
            *self is Bigint ==> r@ == "bigint"@,
    {
        match self {
            PropertyPreviewType::Object => "object",
            PropertyPreviewType::Function => "function",
            PropertyPreviewType::Undefined => "undefined",
            PropertyPreviewType::String => "string",
            PropertyPreviewType::Number => "number",
            PropertyPreviewType::Boolean => "boolean",
            PropertyPreviewType::Symbol => "symbol",
            PropertyPreviewType::Accessor => "accessor",
            PropertyPreviewType::Bigint => "bigint",
        }
    }
}

/// Object subtype hint of one previewed property.
#[derive(Debug, Clone, PartialEq, Eq, Structural, Hash)]
pub enum PropertyPreviewSubtype {
    /// An array.
    Array,
    /// The null value.
    Null,
    /// A DOM node.
    Node,
    /// A regular expression.
    Regexp,
    /// A date.
    Date,
    /// A map collection.
    MapColl,
    /// A set collection.
    SetColl,
    /// A weak map collection.
    Weakmap,
    /// A weak set collection.
    Weakset,
    /// An iterator.
    Iterator,
    /// A generator.
    Generator,
    /// An error object.
    Error,
}

impl PropertyPreviewSubtype {
    /// The wire name of the property subtype.
    pub fn as_str(&self) -> (r: &'static str)
        ensures
            *self is Array ==> r@ == "array"@,
            *self is Null ==> r@ == "null"@,
            *self is Node ==> r@ == "node"@,
            *self is Regexp ==> r@ == "regexp"@,
            *self is Date ==> r@ == "date"@,
            *self is MapColl ==> r@ == "map"@,
            *self is SetColl ==> r@ == "set"@,
            *self is Weakmap ==> r@ == "weakmap"@,
            *self is Weakset ==> r@ == "weakset"@,
            *self is Iterator ==> r@ == "iterator"@,
            *self is Generator ==> r@ == "generator"@,
            *self is Error ==> r@ == "error"@,
    {
        match self {
            PropertyPreviewSubtype::Array => "array",
            PropertyPreviewSubtype::Null => "null",
            PropertyPreviewSubtype::Node => "node",
            PropertyPreviewSubtype::Regexp => "regexp",
            PropertyPreviewSubtype::Date => "date",
            PropertyPreviewSubtype::MapColl => "map",
            PropertyPreviewSubtype::SetColl => "set",
            PropertyPreviewSubtype::Weakmap => "weakmap",
            PropertyPreviewSubtype::Weakset => "weakset",
            PropertyPreviewSubtype::Iterator => "iterator",
            PropertyPreviewSubtype::Generator => "generator",
            PropertyPreviewSubtype::Error => "error",
        }
    }
}

/// A previewed property of an object.
#[derive(Debug)]
pub struct PropertyPreview {
    /// The property's name.
    pub name: String,
    /// The property's object type.
    pub kind: PropertyPreviewType,
    /// A user-friendly value string.
    pub value: Option<String>,
    /// A nested value preview.
    pub value_preview: Option<Box<ObjectPreview>>,
    /// The property's object subtype hint.
    pub subtype: Option<PropertyPreviewSubtype>,
}

impl PropertyPreview {
    /// A property preview with the required fields set.
    pub fn new(name: String, kind: PropertyPreviewType) -> (r: PropertyPreview)
        ensures
            r.name == name,
            r.kind == kind,
            r.value is None,
            r.value_preview is None,
            r.subtype is None,
    {
        PropertyPreview { name, kind, value: None, value_preview: None, subtype: None }
    }
}

/// An abbreviated remote object value.
#[derive(Debug)]
pub struct ObjectPreview {
    /// The object type.
    pub kind: ObjectPreviewType,
    /// The object subtype hint.
    pub subtype: Option<ObjectPreviewSubtype>,
    /// A string representation of the object.
    pub description: Option<String>,
    /// Whether some properties or entries of the original object did not
    /// fit.
    pub overflow: bool,
    /// The previewed properties.
    pub properties: Vec<PropertyPreview>,
    /// The previewed entries, for map and set subtypes.
    pub entries: Option<Vec<EntryPreview>>,
}

impl ObjectPreview {
    /// An object preview with the required fields set.
    pub fn new(kind: ObjectPreviewType, overflow: bool, properties: Vec<PropertyPreview>) -> (r:
        ObjectPreview)
        ensures
            r.kind == kind,
            r.overflow == overflow,
            r.properties == properties,
            r.subtype is None,
            r.description is None,
            r.entries is None,
    {
        ObjectPreview { kind, subtype: None, description: None, overflow, properties, entries: None }
    }
}

/// A previewed entry of a map-like or set-like collection.
#[derive(Debug)]
pub struct EntryPreview {
    /// A preview of the key, for map-like collection entries.
    pub key: Option<ObjectPreview>,
    /// A preview of the value.
    pub value: ObjectPreview,
}

impl EntryPreview {
    /// An entry preview of the given value, without a key.
    pub fn new(value: ObjectPreview) -> (r: EntryPreview)
        ensures
            r.value == value,
            r.key is None,
    {
        EntryPreview { value, key: None }
    }
}

/// A mirror object referencing an original JavaScript object.
#[derive(Debug)]
pub struct RemoteObject {
    /// The object type.
    pub kind: RemoteObjectType,
    /// The object subtype hint.
    pub subtype: Option<RemoteObjectSubtype>,
    /// The object class (constructor) name.
    pub class_name: Option<String>,
    /// The remote object value for primitive or JSON values, as raw JSON
    /// text.
    pub value: Option<String>,
    /// A primitive value that cannot be JSON-stringified.
    pub unserializable_value: Option<UnserializableValue>,
    /// A string representation of the object.
    pub description: Option<String>,
    /// The unique object identifier, for non-primitive values.
    pub object_id: Option<RemoteObjectId>,
    /// A preview with abbreviated property values.
    pub preview: Option<ObjectPreview>,
    /// A custom formatter preview.
    pub custom_preview: Option<CustomPreview>,
}

impl RemoteObject {
    /// A remote object of the given type with every optional field absent.
    pub fn new(kind: RemoteObjectType) -> (r: RemoteObject)
        ensures
            r.kind == kind,
            r.subtype is None,
            r.class_name is None,
            r.value is None,
            r.unserializable_value is None,
            r.description is None,
            r.object_id is None,
            r.preview is None,
            r.custom_preview is None,
    {
        RemoteObject {
            kind,
            subtype: None,
            class_name: None,
            value: None,
            unserializable_value: None,
            description: None,
            object_id: None,
            preview: None,
            custom_preview: None,
        }
    }
}

/// Fired when a new execution context is created.
#[derive(Debug)]
pub struct EventExecutionContextCreated {
    /// The created context's identifier.
    pub context_id: ExecutionContextId,
}

/// Fired when an execution context is destroyed.
#[derive(Debug)]
pub struct EventExecutionContextDestroyed {
    /// The destroyed context's identifier.
    pub execution_context_id: ExecutionContextId,
}

/// Fired when all execution contexts were cleared.
#[derive(Debug)]
pub struct EventExecutionContextsCleared {}

/// Fired when a registered binding is called.
#[derive(Debug)]
pub struct EventBindingCalled {
    /// The binding's name.
    pub name: String,
    /// The payload the page handed to the binding.
    pub payload: String,
}

} // verus!
