//! Enumerations shared with the zvec C interface, and their numeric codes.
//!
//! Each enumeration converts to and from the `u32` code that the C interface
//! uses. Converting a variant to its code and back gives the variant again; a
//! code that names no variant converts to the enumeration's fallback variant.
use vstd::prelude::*;

verus! {

/// Data type of a field in a zvec collection.
#[derive(Debug, Clone, Copy, PartialEq, Eq, Structural)]
pub enum DataType {
    /// Undefined or unknown type.
    Undefined,
    /// Raw binary data (arbitrary bytes).
    Binary,
    /// UTF-8 encoded string.
    String,
    /// Boolean value.
    Bool,
    /// 32-bit signed integer.
    Int32,
    /// 64-bit signed integer.
    Int64,
    /// 32-bit unsigned integer.
    Uint32,
    /// 64-bit unsigned integer.
    Uint64,
    /// 32-bit floating point (single precision).
    Float,
    /// 64-bit floating point (double precision).
    Double,
    /// Dense binary vector with 32-bit packing.
    VectorBinary32,
    /// Dense binary vector with 64-bit packing.
    VectorBinary64,
    /// Dense vector with 16-bit floating point elements (half precision).
    VectorFp16,
    /// Dense vector with 32-bit floating point elements (single precision).
    VectorFp32,
    /// Dense vector with 64-bit floating point elements (double precision).
    VectorFp64,
    /// Dense vector with 4-bit integer elements (packed, 2 values per byte).
    VectorInt4,
    /// Dense vector with 8-bit integer elements.
    VectorInt8,
    /// Dense vector with 16-bit integer elements.
    VectorInt16,
    /// Sparse vector with 16-bit floating point values.
    SparseVectorFp16,
    /// Sparse vector with 32-bit floating point values.
    SparseVectorFp32,
    /// Array of binary data.
    ArrayBinary,
    /// Array of strings.
    ArrayString,
    /// Array of booleans.
    ArrayBool,
    /// Array of 32-bit signed integers.
    ArrayInt32,
    /// Array of 64-bit signed integers.
    ArrayInt64,
    /// Array of 32-bit unsigned integers.
    ArrayUint32,
    /// Array of 64-bit unsigned integers.
    ArrayUint64,
    /// Array of 32-bit floating point values.
    ArrayFloat,
    /// Array of 64-bit floating point values.
    ArrayDouble,
}

impl DataType {
    /// The numeric code of each variant.
    pub open spec fn code_of(self) -> u32 {
        match self {
            DataType::Undefined => 0,
            DataType::Binary => 1,
            DataType::String => 2,
            DataType::Bool => 3,
            DataType::Int32 => 4,
            DataType::Int64 => 5,
            DataType::Uint32 => 6,
            DataType::Uint64 => 7,
            DataType::Float => 8,
            DataType::Double => 9,
            DataType::VectorBinary32 => 20,
            DataType::VectorBinary64 => 21,
            DataType::VectorFp16 => 22,
            DataType::VectorFp32 => 23,
            DataType::VectorFp64 => 24,
            DataType::VectorInt4 => 25,
            DataType::VectorInt8 => 26,
            DataType::VectorInt16 => 27,
            DataType::SparseVectorFp16 => 30,
            DataType::SparseVectorFp32 => 31,
            DataType::ArrayBinary => 40,
            DataType::ArrayString => 41,
            DataType::ArrayBool => 42,
            DataType::ArrayInt32 => 43,
            DataType::ArrayInt64 => 44,
            DataType::ArrayUint32 => 45,
            DataType::ArrayUint64 => 46,
            DataType::ArrayFloat => 47,
            DataType::ArrayDouble => 48,
        }
    }

    /// The variant that a numeric code stands for; a code that names no variant
    /// stands for `Undefined`.
    pub open spec fn of_code(v: u32) -> DataType {
        if v == 1 {
            DataType::Binary
        } else if v == 2 {
            DataType::String
        } else if v == 3 {
            DataType::Bool
        } else if v == 4 {
            DataType::Int32
        } else if v == 5 {
            DataType::Int64
        } else if v == 6 {
            DataType::Uint32
        } else if v == 7 {
            DataType::Uint64
        } else if v == 8 {
            DataType::Float
        } else if v == 9 {
            DataType::Double
        } else if v == 20 {
            DataType::VectorBinary32
        } else if v == 21 {
            DataType::VectorBinary64
        } else if v == 22 {
            DataType::VectorFp16
        } else if v == 23 {
            DataType::VectorFp32
        } else if v == 24 {
            DataType::VectorFp64
        } else if v == 25 {
            DataType::VectorInt4
        } else if v == 26 {
            DataType::VectorInt8
        } else if v == 27 {
            DataType::VectorInt16
        } else if v == 30 {
            DataType::SparseVectorFp16
        } else if v == 31 {
            DataType::SparseVectorFp32
        } else if v == 40 {
            DataType::ArrayBinary
        } else if v == 41 {
            DataType::ArrayString
        } else if v == 42 {
            DataType::ArrayBool
        } else if v == 43 {
            DataType::ArrayInt32
        } else if v == 44 {
            DataType::ArrayInt64
        } else if v == 45 {
            DataType::ArrayUint32
        } else if v == 46 {
            DataType::ArrayUint64
        } else if v == 47 {
            DataType::ArrayFloat
        } else if v == 48 {
            DataType::ArrayDouble
        } else {
            DataType::Undefined
        }
    }

    /// Whether a numeric code names a variant.
    pub open spec fn is_known_code(v: u32) -> bool {
        v == 0 || v == 1 || v == 2 || v == 3 || v == 4 || v == 5 || v == 6 || v == 7 || v == 8 || v == 9 || v == 20 || v == 21 || v == 22 || v == 23 || v == 24 || v == 25 || v == 26 || v == 27 || v == 30 || v == 31 || v == 40 || v == 41 || v == 42 || v == 43 || v == 44 || v == 45 || v == 46 || v == 47 || v == 48
    }

    /// The name of each variant.
    pub open spec fn name_of(self) -> Seq<char> {
        match self {
            DataType::Undefined => "Undefined"@,
            DataType::Binary => "Binary"@,
            DataType::String => "String"@,
            DataType::Bool => "Bool"@,
            DataType::Int32 => "Int32"@,
            DataType::Int64 => "Int64"@,
            DataType::Uint32 => "Uint32"@,
            DataType::Uint64 => "Uint64"@,
            DataType::Float => "Float"@,
            DataType::Double => "Double"@,
            DataType::VectorBinary32 => "VectorBinary32"@,
            DataType::VectorBinary64 => "VectorBinary64"@,
            DataType::VectorFp16 => "VectorFp16"@,
            DataType::VectorFp32 => "VectorFp32"@,
            DataType::VectorFp64 => "VectorFp64"@,
            DataType::VectorInt4 => "VectorInt4"@,
            DataType::VectorInt8 => "VectorInt8"@,
            DataType::VectorInt16 => "VectorInt16"@,
            DataType::SparseVectorFp16 => "SparseVectorFp16"@,
            DataType::SparseVectorFp32 => "SparseVectorFp32"@,
            DataType::ArrayBinary => "ArrayBinary"@,
            DataType::ArrayString => "ArrayString"@,
            DataType::ArrayBool => "ArrayBool"@,
            DataType::ArrayInt32 => "ArrayInt32"@,
            DataType::ArrayInt64 => "ArrayInt64"@,
            DataType::ArrayUint32 => "ArrayUint32"@,
            DataType::ArrayUint64 => "ArrayUint64"@,
            DataType::ArrayFloat => "ArrayFloat"@,
            DataType::ArrayDouble => "ArrayDouble"@,
        }
    }

    /// Returns the numeric code of this variant.
    pub fn code(self) -> (c: u32)
        ensures
            c == self.code_of(),
    {
        match self {
            DataType::Undefined => 0,
            DataType::Binary => 1,
            DataType::String => 2,
            DataType::Bool => 3,
            DataType::Int32 => 4,
            DataType::Int64 => 5,
            DataType::Uint32 => 6,
            DataType::Uint64 => 7,
            DataType::Float => 8,
            DataType::Double => 9,
            DataType::VectorBinary32 => 20,
            DataType::VectorBinary64 => 21,
            DataType::VectorFp16 => 22,
            DataType::VectorFp32 => 23,
            DataType::VectorFp64 => 24,
            DataType::VectorInt4 => 25,
            DataType::VectorInt8 => 26,
            DataType::VectorInt16 => 27,
            DataType::SparseVectorFp16 => 30,
            DataType::SparseVectorFp32 => 31,
            DataType::ArrayBinary => 40,
            DataType::ArrayString => 41,
            DataType::ArrayBool => 42,
            DataType::ArrayInt32 => 43,
            DataType::ArrayInt64 => 44,
            DataType::ArrayUint32 => 45,
            DataType::ArrayUint64 => 46,
            DataType::ArrayFloat => 47,
            DataType::ArrayDouble => 48,
        }
    }

    /// Returns the variant that a numeric code stands for.
    pub fn from_code(v: u32) -> (r: DataType)
        ensures
            r == DataType::of_code(v),
    {
        match v {
            1 => DataType::Binary,
            2 => DataType::String,
            3 => DataType::Bool,
            4 => DataType::Int32,
            5 => DataType::Int64,
            6 => DataType::Uint32,
            7 => DataType::Uint64,
            8 => DataType::Float,
            9 => DataType::Double,
            20 => DataType::VectorBinary32,
            21 => DataType::VectorBinary64,
            22 => DataType::VectorFp16,
            23 => DataType::VectorFp32,
            24 => DataType::VectorFp64,
            25 => DataType::VectorInt4,
            26 => DataType::VectorInt8,
            27 => DataType::VectorInt16,
            30 => DataType::SparseVectorFp16,
            31 => DataType::SparseVectorFp32,
            40 => DataType::ArrayBinary,
            41 => DataType::ArrayString,
            42 => DataType::ArrayBool,
            43 => DataType::ArrayInt32,
            44 => DataType::ArrayInt64,
            45 => DataType::ArrayUint32,
            46 => DataType::ArrayUint64,
            47 => DataType::ArrayFloat,
            48 => DataType::ArrayDouble,
            _ => DataType::Undefined,
        }
    }

    /// Returns the name of this variant.
    pub fn to_string(&self) -> (s: String)
        ensures
            s@ == self.name_of(),
    {
        match self {
            DataType::Undefined => String::from_str("Undefined"),
            DataType::Binary => String::from_str("Binary"),
            DataType::String => String::from_str("String"),
            DataType::Bool => String::from_str("Bool"),
            DataType::Int32 => String::from_str("Int32"),
            DataType::Int64 => String::from_str("Int64"),
            DataType::Uint32 => String::from_str("Uint32"),
            DataType::Uint64 => String::from_str("Uint64"),
            DataType::Float => String::from_str("Float"),
            DataType::Double => String::from_str("Double"),
            DataType::VectorBinary32 => String::from_str("VectorBinary32"),
            DataType::VectorBinary64 => String::from_str("VectorBinary64"),
            DataType::VectorFp16 => String::from_str("VectorFp16"),
            DataType::VectorFp32 => String::from_str("VectorFp32"),
            DataType::VectorFp64 => String::from_str("VectorFp64"),
            DataType::VectorInt4 => String::from_str("VectorInt4"),
            DataType::VectorInt8 => String::from_str("VectorInt8"),
            DataType::VectorInt16 => String::from_str("VectorInt16"),
            DataType::SparseVectorFp16 => String::from_str("SparseVectorFp16"),
            DataType::SparseVectorFp32 => String::from_str("SparseVectorFp32"),
            DataType::ArrayBinary => String::from_str("ArrayBinary"),
            DataType::ArrayString => String::from_str("ArrayString"),
            DataType::ArrayBool => String::from_str("ArrayBool"),
            DataType::ArrayInt32 => String::from_str("ArrayInt32"),
            DataType::ArrayInt64 => String::from_str("ArrayInt64"),
            DataType::ArrayUint32 => String::from_str("ArrayUint32"),
            DataType::ArrayUint64 => String::from_str("ArrayUint64"),
            DataType::ArrayFloat => String::from_str("ArrayFloat"),
            DataType::ArrayDouble => String::from_str("ArrayDouble"),
        }
    }
}

impl From<u32> for DataType {
    fn from(v: u32) -> (r: DataType) {
        DataType::from_code(v)
    }
}

impl vstd::std_specs::convert::FromSpecImpl<u32> for DataType {
    open spec fn obeys_from_spec() -> bool {
        true
    }

    open spec fn from_spec(v: u32) -> DataType {
        DataType::of_code(v)
    }
}

impl From<DataType> for u32 {
    fn from(x: DataType) -> (c: u32) {
        x.code()
    }
}

impl vstd::std_specs::convert::FromSpecImpl<DataType> for u32 {
    open spec fn obeys_from_spec() -> bool {
        true
    }

    open spec fn from_spec(x: DataType) -> u32 {
        x.code_of()
    }
}

/// Converting any `DataType` to its numeric code and back gives it again, and
/// no two variants share a code.
pub proof fn lemma_data_type_roundtrip(x: DataType, y: DataType)
    ensures
        DataType::of_code(x.code_of()) == x,
        DataType::is_known_code(x.code_of()),
        x.code_of() == y.code_of() ==> x == y,
{
}

/// A code that names a variant converts to that variant and back to itself;
/// any other code converts to `DataType::Undefined`, whose code is 0.
/// Converting a code, then its variant, then the code again is therefore
/// stable.
pub proof fn lemma_data_type_code_canonical(v: u32)
    ensures
        DataType::is_known_code(v) ==> DataType::of_code(v).code_of() == v,
        !DataType::is_known_code(v) ==> DataType::of_code(v) == DataType::Undefined,
        DataType::of_code(DataType::of_code(v).code_of()) == DataType::of_code(v),
{
}

/// Index type for a field.
#[derive(Debug, Clone, Copy, PartialEq, Eq, Structural)]
pub enum IndexType {
    /// Undefined or unknown index type.
    Undefined,
    /// Hierarchical Navigable Small World graph index (recommended for most use cases).
    Hnsw,
    /// Inverted File index with clustering.
    Ivf,
    /// Flat (brute-force) index: exact search, no approximation.
    Flat,
    /// Inverted index for scalar field filtering.
    Invert,
}

impl IndexType {
    /// The numeric code of each variant.
    pub open spec fn code_of(self) -> u32 {
        match self {
            IndexType::Undefined => 0,
            IndexType::Hnsw => 1,
            IndexType::Ivf => 2,
            IndexType::Flat => 3,
            IndexType::Invert => 10,
        }
    }

    /// The variant that a numeric code stands for; a code that names no variant
    /// stands for `Undefined`.
    pub open spec fn of_code(v: u32) -> IndexType {
        if v == 1 {
            IndexType::Hnsw
        } else if v == 2 {
            IndexType::Ivf
        } else if v == 3 {
            IndexType::Flat
        } else if v == 10 {
            IndexType::Invert
        } else {
            IndexType::Undefined
        }
    }

    /// Whether a numeric code names a variant.
    pub open spec fn is_known_code(v: u32) -> bool {
        v == 0 || v == 1 || v == 2 || v == 3 || v == 10
    }

    /// The name of each variant.
    pub open spec fn name_of(self) -> Seq<char> {
        match self {
            IndexType::Undefined => "Undefined"@,
            IndexType::Hnsw => "Hnsw"@,
            IndexType::Ivf => "Ivf"@,
            IndexType::Flat => "Flat"@,
            IndexType::Invert => "Invert"@,
        }
    }

    /// Returns the numeric code of this variant.
    pub fn code(self) -> (c: u32)
        ensures
            c == self.code_of(),
    {
        match self {
            IndexType::Undefined => 0,
            IndexType::Hnsw => 1,
            IndexType::Ivf => 2,
            IndexType::Flat => 3,
            IndexType::Invert => 10,
        }
    }

    /// Returns the variant that a numeric code stands for.
    pub fn from_code(v: u32) -> (r: IndexType)
        ensures
            r == IndexType::of_code(v),
    {
        match v {
            1 => IndexType::Hnsw,
            2 => IndexType::Ivf,
            3 => IndexType::Flat,
            10 => IndexType::Invert,
            _ => IndexType::Undefined,
        }
    }

    /// Returns the name of this variant.
    pub fn to_string(&self) -> (s: String)
        ensures
            s@ == self.name_of(),
    {
        match self {
            IndexType::Undefined => String::from_str("Undefined"),
            IndexType::Hnsw => String::from_str("Hnsw"),
            IndexType::Ivf => String::from_str("Ivf"),
            IndexType::Flat => String::from_str("Flat"),
            IndexType::Invert => String::from_str("Invert"),
        }
    }
}

impl From<u32> for IndexType {
    fn from(v: u32) -> (r: IndexType) {
        IndexType::from_code(v)
    }
}

impl vstd::std_specs::convert::FromSpecImpl<u32> for IndexType {
    open spec fn obeys_from_spec() -> bool {
        true
    }

    open spec fn from_spec(v: u32) -> IndexType {
        IndexType::of_code(v)
    }
}

impl From<IndexType> for u32 {
    fn from(x: IndexType) -> (c: u32) {
        x.code()
    }
}

impl vstd::std_specs::convert::FromSpecImpl<IndexType> for u32 {
    open spec fn obeys_from_spec() -> bool {
        true
    }

    open spec fn from_spec(x: IndexType) -> u32 {
        x.code_of()
    }
}

/// Converting any `IndexType` to its numeric code and back gives it again, and
/// no two variants share a code.
pub proof fn lemma_index_type_roundtrip(x: IndexType, y: IndexType)
    ensures
        IndexType::of_code(x.code_of()) == x,
        IndexType::is_known_code(x.code_of()),
        x.code_of() == y.code_of() ==> x == y,
{
}

/// A code that names a variant converts to that variant and back to itself;
/// any other code converts to `IndexType::Undefined`, whose code is 0.
/// Converting a code, then its variant, then the code again is therefore
/// stable.
pub proof fn lemma_index_type_code_canonical(v: u32)
    ensures
        IndexType::is_known_code(v) ==> IndexType::of_code(v).code_of() == v,
        !IndexType::is_known_code(v) ==> IndexType::of_code(v) == IndexType::Undefined,
        IndexType::of_code(IndexType::of_code(v).code_of()) == IndexType::of_code(v),
{
}

/// Distance metric type for vector similarity search.
#[derive(Debug, Clone, Copy, PartialEq, Eq, Structural)]
pub enum MetricType {
    /// Undefined or unknown metric type.
    Undefined,
    /// Euclidean distance (L2 norm). Smaller values indicate higher similarity.
    L2,
    /// Inner product. Larger values indicate higher similarity.
    Ip,
    /// Cosine similarity. Values range from -1 to 1; closer to 1 means more similar.
    Cosine,
    /// Maximum Inner Product Search with L2 normalization.
    MipsL2,
}

impl MetricType {
    /// The numeric code of each variant.
    pub open spec fn code_of(self) -> u32 {
        match self {
            MetricType::Undefined => 0,
            MetricType::L2 => 1,
            MetricType::Ip => 2,
            MetricType::Cosine => 3,
            MetricType::MipsL2 => 4,
        }
    }

    /// The variant that a numeric code stands for; a code that names no variant
    /// stands for `Undefined`.
    pub open spec fn of_code(v: u32) -> MetricType {
        if v == 1 {
            MetricType::L2
        } else if v == 2 {
            MetricType::Ip
        } else if v == 3 {
            MetricType::Cosine
        } else if v == 4 {
            MetricType::MipsL2
        } else {
            MetricType::Undefined
        }
    }

    /// Whether a numeric code names a variant.
    pub open spec fn is_known_code(v: u32) -> bool {
        v == 0 || v == 1 || v == 2 || v == 3 || v == 4
    }

    /// The name of each variant.
    pub open spec fn name_of(self) -> Seq<char> {
        match self {
            MetricType::Undefined => "Undefined"@,
            MetricType::L2 => "L2"@,
            MetricType::Ip => "Ip"@,
            MetricType::Cosine => "Cosine"@,
            MetricType::MipsL2 => "MipsL2"@,
        }
    }

    /// Returns the numeric code of this variant.
    pub fn code(self) -> (c: u32)
        ensures
            c == self.code_of(),
    {
        match self {
            MetricType::Undefined => 0,
            MetricType::L2 => 1,
            MetricType::Ip => 2,
            MetricType::Cosine => 3,
            MetricType::MipsL2 => 4,
        }
    }

    /// Returns the variant that a numeric code stands for.
    pub fn from_code(v: u32) -> (r: MetricType)
        ensures
            r == MetricType::of_code(v),
    {
        match v {
            1 => MetricType::L2,
            2 => MetricType::Ip,
            3 => MetricType::Cosine,
            4 => MetricType::MipsL2,
            _ => MetricType::Undefined,
        }
    }

    /// Returns the name of this variant.
    pub fn to_string(&self) -> (s: String)
        ensures
            s@ == self.name_of(),
    {
        match self {
            MetricType::Undefined => String::from_str("Undefined"),
            MetricType::L2 => String::from_str("L2"),
            MetricType::Ip => String::from_str("Ip"),
            MetricType::Cosine => String::from_str("Cosine"),
            MetricType::MipsL2 => String::from_str("MipsL2"),
        }
    }
}

impl From<u32> for MetricType {
    fn from(v: u32) -> (r: MetricType) {
        MetricType::from_code(v)
    }
}

impl vstd::std_specs::convert::FromSpecImpl<u32> for MetricType {
    open spec fn obeys_from_spec() -> bool {
        true
    }

    open spec fn from_spec(v: u32) -> MetricType {
        MetricType::of_code(v)
    }
}

impl From<MetricType> for u32 {
    fn from(x: MetricType) -> (c: u32) {
        x.code()
    }
}

impl vstd::std_specs::convert::FromSpecImpl<MetricType> for u32 {
    open spec fn obeys_from_spec() -> bool {
        true
    }

    open spec fn from_spec(x: MetricType) -> u32 {
        x.code_of()
    }
}

/// Converting any `MetricType` to its numeric code and back gives it again, and
/// no two variants share a code.
pub proof fn lemma_metric_type_roundtrip(x: MetricType, y: MetricType)
    ensures
        MetricType::of_code(x.code_of()) == x,
        MetricType::is_known_code(x.code_of()),
        x.code_of() == y.code_of() ==> x == y,
{
}

/// A code that names a variant converts to that variant and back to itself;
/// any other code converts to `MetricType::Undefined`, whose code is 0.
/// Converting a code, then its variant, then the code again is therefore
/// stable.
pub proof fn lemma_metric_type_code_canonical(v: u32)
    ensures
        MetricType::is_known_code(v) ==> MetricType::of_code(v).code_of() == v,
        !MetricType::is_known_code(v) ==> MetricType::of_code(v) == MetricType::Undefined,
        MetricType::of_code(MetricType::of_code(v).code_of()) == MetricType::of_code(v),
{
}

/// Quantization type for vector indexes.
#[derive(Debug, Clone, Copy, PartialEq, Eq, Structural)]
pub enum QuantizeType {
    /// No quantization.
    Undefined,
    /// 16-bit floating point quantization (half precision).
    Fp16,
    /// 8-bit integer quantization.
    Int8,
    /// 4-bit integer quantization.
    Int4,
}

impl QuantizeType {
    /// The numeric code of each variant.
    pub open spec fn code_of(self) -> u32 {
        match self {
            QuantizeType::Undefined => 0,
            QuantizeType::Fp16 => 1,
            QuantizeType::Int8 => 2,
            QuantizeType::Int4 => 3,
        }
    }

    /// The variant that a numeric code stands for; a code that names no variant
    /// stands for `Undefined`.
    pub open spec fn of_code(v: u32) -> QuantizeType {
        if v == 1 {
            QuantizeType::Fp16
        } else if v == 2 {
            QuantizeType::Int8
        } else if v == 3 {
            QuantizeType::Int4
        } else {
            QuantizeType::Undefined
        }
    }

    /// Whether a numeric code names a variant.
    pub open spec fn is_known_code(v: u32) -> bool {
        v == 0 || v == 1 || v == 2 || v == 3
    }

    /// The name of each variant.
    pub open spec fn name_of(self) -> Seq<char> {
        match self {
            QuantizeType::Undefined => "Undefined"@,
            QuantizeType::Fp16 => "Fp16"@,
            QuantizeType::Int8 => "Int8"@,
            QuantizeType::Int4 => "Int4"@,
        }
    }

    /// Returns the numeric code of this variant.
    pub fn code(self) -> (c: u32)
        ensures
            c == self.code_of(),
    {
        match self {
            QuantizeType::Undefined => 0,
            QuantizeType::Fp16 => 1,
            QuantizeType::Int8 => 2,
            QuantizeType::Int4 => 3,
        }
    }

    /// Returns the variant that a numeric code stands for.
    pub fn from_code(v: u32) -> (r: QuantizeType)
        ensures
            r == QuantizeType::of_code(v),
    {
        match v {
            1 => QuantizeType::Fp16,
            2 => QuantizeType::Int8,
            3 => QuantizeType::Int4,
            _ => QuantizeType::Undefined,
        }
    }

    /// Returns the name of this variant.
    pub fn to_string(&self) -> (s: String)
        ensures
            s@ == self.name_of(),
    {
        match self {
            QuantizeType::Undefined => String::from_str("Undefined"),
            QuantizeType::Fp16 => String::from_str("Fp16"),
            QuantizeType::Int8 => String::from_str("Int8"),
            QuantizeType::Int4 => String::from_str("Int4"),
        }
    }
}

impl From<u32> for QuantizeType {
    fn from(v: u32) -> (r: QuantizeType) {
        QuantizeType::from_code(v)
    }
}

impl vstd::std_specs::convert::FromSpecImpl<u32> for QuantizeType {
    open spec fn obeys_from_spec() -> bool {
        true
    }

    open spec fn from_spec(v: u32) -> QuantizeType {
        QuantizeType::of_code(v)
    }
}

impl From<QuantizeType> for u32 {
    fn from(x: QuantizeType) -> (c: u32) {
        x.code()
    }
}

impl vstd::std_specs::convert::FromSpecImpl<QuantizeType> for u32 {
    open spec fn obeys_from_spec() -> bool {
        true
    }

    open spec fn from_spec(x: QuantizeType) -> u32 {
        x.code_of()
    }
}

/// Converting any `QuantizeType` to its numeric code and back gives it again, and
/// no two variants share a code.
pub proof fn lemma_quantize_type_roundtrip(x: QuantizeType, y: QuantizeType)
    ensures
        QuantizeType::of_code(x.code_of()) == x,
        QuantizeType::is_known_code(x.code_of()),
        x.code_of() == y.code_of() ==> x == y,
{
}

/// A code that names a variant converts to that variant and back to itself;
/// any other code converts to `QuantizeType::Undefined`, whose code is 0.
/// Converting a code, then its variant, then the code again is therefore
/// stable.
pub proof fn lemma_quantize_type_code_canonical(v: u32)
    ensures
        QuantizeType::is_known_code(v) ==> QuantizeType::of_code(v).code_of() == v,
        !QuantizeType::is_known_code(v) ==> QuantizeType::of_code(v) == QuantizeType::Undefined,
        QuantizeType::of_code(QuantizeType::of_code(v).code_of()) == QuantizeType::of_code(v),
{
}

/// Log level for the zvec library.
#[derive(Debug, Clone, Copy, PartialEq, Eq, Structural)]
pub enum LogLevel {
    /// Verbose debug messages.
    Debug,
    /// Informational messages.
    Info,
    /// Warning messages for potentially harmful situations.
    Warn,
    /// Error messages for failure events.
    Error,
    /// Fatal messages indicating imminent abort.
    Fatal,
}

impl LogLevel {
    /// The numeric code of each variant.
    pub open spec fn code_of(self) -> u32 {
        match self {
            LogLevel::Debug => 0,
            LogLevel::Info => 1,
            LogLevel::Warn => 2,
            LogLevel::Error => 3,
            LogLevel::Fatal => 4,
        }
    }

    /// The variant that a numeric code stands for; a code that names no variant
    /// stands for `Debug`.
    pub open spec fn of_code(v: u32) -> LogLevel {
        if v == 1 {
            LogLevel::Info
        } else if v == 2 {
            LogLevel::Warn
        } else if v == 3 {
            LogLevel::Error
        } else if v == 4 {
            LogLevel::Fatal
        } else {
            LogLevel::Debug
        }
    }

    /// Whether a numeric code names a variant.
    pub open spec fn is_known_code(v: u32) -> bool {
        v == 0 || v == 1 || v == 2 || v == 3 || v == 4
    }

    /// The name of each variant.
    pub open spec fn name_of(self) -> Seq<char> {
        match self {
            LogLevel::Debug => "Debug"@,
            LogLevel::Info => "Info"@,
            LogLevel::Warn => "Warn"@,
            LogLevel::Error => "Error"@,
            LogLevel::Fatal => "Fatal"@,
        }
    }

    /// Returns the numeric code of this variant.
    pub fn code(self) -> (c: u32)
        ensures
            c == self.code_of(),
    {
        match self {
            LogLevel::Debug => 0,
            LogLevel::Info => 1,
            LogLevel::Warn => 2,
            LogLevel::Error => 3,
            LogLevel::Fatal => 4,
        }
    }

    /// Returns the variant that a numeric code stands for.
    pub fn from_code(v: u32) -> (r: LogLevel)
        ensures
            r == LogLevel::of_code(v),
    {
        match v {
            1 => LogLevel::Info,
            2 => LogLevel::Warn,
            3 => LogLevel::Error,
            4 => LogLevel::Fatal,
            _ => LogLevel::Debug,
        }
    }

    /// Returns the name of this variant.
    pub fn to_string(&self) -> (s: String)
        ensures
            s@ == self.name_of(),
    {
        match self {
            LogLevel::Debug => String::from_str("Debug"),
            LogLevel::Info => String::from_str("Info"),
            LogLevel::Warn => String::from_str("Warn"),
            LogLevel::Error => String::from_str("Error"),
            LogLevel::Fatal => String::from_str("Fatal"),
        }
    }
}

impl From<u32> for LogLevel {
    fn from(v: u32) -> (r: LogLevel) {
        LogLevel::from_code(v)
    }
}

impl vstd::std_specs::convert::FromSpecImpl<u32> for LogLevel {
    open spec fn obeys_from_spec() -> bool {
        true
    }

    open spec fn from_spec(v: u32) -> LogLevel {
        LogLevel::of_code(v)
    }
}

impl From<LogLevel> for u32 {
    fn from(x: LogLevel) -> (c: u32) {
        x.code()
    }
}

impl vstd::std_specs::convert::FromSpecImpl<LogLevel> for u32 {
    open spec fn obeys_from_spec() -> bool {
        true
    }

    open spec fn from_spec(x: LogLevel) -> u32 {
        x.code_of()
    }
}

/// Converting any `LogLevel` to its numeric code and back gives it again, and
/// no two variants share a code.
pub proof fn lemma_log_level_roundtrip(x: LogLevel, y: LogLevel)
    ensures
        LogLevel::of_code(x.code_of()) == x,
        LogLevel::is_known_code(x.code_of()),
        x.code_of() == y.code_of() ==> x == y,
{
}

/// A code that names a variant converts to that variant and back to itself;
/// any other code converts to `LogLevel::Debug`, whose code is 0.
/// Converting a code, then its variant, then the code again is therefore
/// stable.
pub proof fn lemma_log_level_code_canonical(v: u32)
    ensures
        LogLevel::is_known_code(v) ==> LogLevel::of_code(v).code_of() == v,
        !LogLevel::is_known_code(v) ==> LogLevel::of_code(v) == LogLevel::Debug,
        LogLevel::of_code(LogLevel::of_code(v).code_of()) == LogLevel::of_code(v),
{
}

/// Document operation type.
#[derive(Debug, Clone, Copy, PartialEq, Eq, Structural)]
pub enum DocOperator {
    /// Insert a new document (fails if primary key already exists).
    Insert,
    /// Update an existing document (fails if primary key does not exist).
    Update,
    /// Insert or update a document (creates if not exists, updates if exists).
    Upsert,
    /// Delete a document by primary key.
    Delete,
}

impl DocOperator {
    /// The numeric code of each variant.
    pub open spec fn code_of(self) -> u32 {
        match self {
            DocOperator::Insert => 0,
            DocOperator::Update => 1,
            DocOperator::Upsert => 2,
            DocOperator::Delete => 3,
        }
    }

    /// The variant that a numeric code stands for; a code that names no variant
    /// stands for `Insert`.
    pub open spec fn of_code(v: u32) -> DocOperator {
        if v == 1 {
            DocOperator::Update
        } else if v == 2 {
            DocOperator::Upsert
        } else if v == 3 {
            DocOperator::Delete
        } else {
            DocOperator::Insert
        }
    }

    /// Whether a numeric code names a variant.
    pub open spec fn is_known_code(v: u32) -> bool {
        v == 0 || v == 1 || v == 2 || v == 3
    }

    /// The name of each variant.
    pub open spec fn name_of(self) -> Seq<char> {
        match self {
            DocOperator::Insert => "Insert"@,
            DocOperator::Update => "Update"@,
            DocOperator::Upsert => "Upsert"@,
            DocOperator::Delete => "Delete"@,
        }
    }

    /// Returns the numeric code of this variant.
    pub fn code(self) -> (c: u32)
        ensures
            c == self.code_of(),
    {
        match self {
            DocOperator::Insert => 0,
            DocOperator::Update => 1,
            DocOperator::Upsert => 2,
            DocOperator::Delete => 3,
        }
    }

    /// Returns the variant that a numeric code stands for.
    pub fn from_code(v: u32) -> (r: DocOperator)
        ensures
            r == DocOperator::of_code(v),
    {
        match v {
            1 => DocOperator::Update,
            2 => DocOperator::Upsert,
            3 => DocOperator::Delete,
            _ => DocOperator::Insert,
        }
    }

    /// Returns the name of this variant.
    pub fn to_string(&self) -> (s: String)
        ensures
            s@ == self.name_of(),
    {
        match self {
            DocOperator::Insert => String::from_str("Insert"),
            DocOperator::Update => String::from_str("Update"),
            DocOperator::Upsert => String::from_str("Upsert"),
            DocOperator::Delete => String::from_str("Delete"),
        }
    }
}

impl From<u32> for DocOperator {
    fn from(v: u32) -> (r: DocOperator) {
        DocOperator::from_code(v)
    }
}

impl vstd::std_specs::convert::FromSpecImpl<u32> for DocOperator {
    open spec fn obeys_from_spec() -> bool {
        true
    }

    open spec fn from_spec(v: u32) -> DocOperator {
        DocOperator::of_code(v)
    }
}

impl From<DocOperator> for u32 {
    fn from(x: DocOperator) -> (c: u32) {
        x.code()
    }
}

impl vstd::std_specs::convert::FromSpecImpl<DocOperator> for u32 {
    open spec fn obeys_from_spec() -> bool {
        true
    }

    open spec fn from_spec(x: DocOperator) -> u32 {
        x.code_of()
    }
}

/// Converting any `DocOperator` to its numeric code and back gives it again, and
/// no two variants share a code.
pub proof fn lemma_doc_operator_roundtrip(x: DocOperator, y: DocOperator)
    ensures
        DocOperator::of_code(x.code_of()) == x,
        DocOperator::is_known_code(x.code_of()),
        x.code_of() == y.code_of() ==> x == y,
{
}

/// A code that names a variant converts to that variant and back to itself;
/// any other code converts to `DocOperator::Insert`, whose code is 0.
/// Converting a code, then its variant, then the code again is therefore
/// stable.
pub proof fn lemma_doc_operator_code_canonical(v: u32)
    ensures
        DocOperator::is_known_code(v) ==> DocOperator::of_code(v).code_of() == v,
        !DocOperator::is_known_code(v) ==> DocOperator::of_code(v) == DocOperator::Insert,
        DocOperator::of_code(DocOperator::of_code(v).code_of()) == DocOperator::of_code(v),
{
}

} // verus!
