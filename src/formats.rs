//! Compression formats, compound (tar-based) formats and their names and
//! file extensions.
use vstd::prelude::*;
use crate::text::{extension_of, lower_of, path_extension, str_eq, to_lowercase};

verus! {

/// Compression format or algorithm.
#[derive(Debug, Clone, Copy, PartialEq, Eq, Hash, Structural)]
pub enum CompressionFormat {
    Gzip,
    Bzip2,
    Xz,
    Tar,
    Zip,
}

impl CompressionFormat {
    /// File extension of the format.
    pub open spec fn spec_extension(self) -> Seq<char> {
        match self {
            CompressionFormat::Gzip => "gz"@,
            CompressionFormat::Bzip2 => "bz2"@,
            CompressionFormat::Xz => "xz"@,
            CompressionFormat::Tar => "tar"@,
            CompressionFormat::Zip => "zip"@,
        }
    }

    /// Name of the format's algorithm.
    pub open spec fn spec_name(self) -> Seq<char> {
        match self {
            CompressionFormat::Gzip => "gzip"@,
            CompressionFormat::Bzip2 => "bzip2"@,
            CompressionFormat::Xz => "xz"@,
            CompressionFormat::Tar => "tar"@,
            CompressionFormat::Zip => "zip"@,
        }
    }

    /// The format whose extension is exactly `ext`.
    pub open spec fn spec_from_extension(ext: Seq<char>) -> Option<CompressionFormat> {
        if ext == "gz"@ {
            Some(CompressionFormat::Gzip)
        } else if ext == "bz2"@ {
            Some(CompressionFormat::Bzip2)
        } else if ext == "xz"@ {
            Some(CompressionFormat::Xz)
        } else if ext == "tar"@ {
            Some(CompressionFormat::Tar)
        } else if ext == "zip"@ {
            Some(CompressionFormat::Zip)
        } else {
            None
        }
    }

    /// The format whose name is exactly `name`.
    pub open spec fn spec_from_name(name: Seq<char>) -> Option<CompressionFormat> {
        if name == "gzip"@ {
            Some(CompressionFormat::Gzip)
        } else if name == "bzip2"@ {
            Some(CompressionFormat::Bzip2)
        } else if name == "xz"@ {
            Some(CompressionFormat::Xz)
        } else if name == "tar"@ {
            Some(CompressionFormat::Tar)
        } else if name == "zip"@ {
            Some(CompressionFormat::Zip)
        } else {
            None
        }
    }

    /// File extension of this format.
    pub fn extension(&self) -> (r: &'static str)
        ensures
            r@ == self.spec_extension(),
    {
        match self {
            CompressionFormat::Gzip => "gz",
            CompressionFormat::Bzip2 => "bz2",
            CompressionFormat::Xz => "xz",
            CompressionFormat::Tar => "tar",
            CompressionFormat::Zip => "zip",
        }
    }

    /// The format of an already lower-case extension.
    pub fn from_lowercase_extension(ext: &str) -> (r: Option<Self>)
        ensures
            r == Self::spec_from_extension(ext@),
    {
        if str_eq(ext, "gz") {
            Some(CompressionFormat::Gzip)
        } else if str_eq(ext, "bz2") {
            Some(CompressionFormat::Bzip2)
        } else if str_eq(ext, "xz") {
            Some(CompressionFormat::Xz)
        } else if str_eq(ext, "tar") {
            Some(CompressionFormat::Tar)
        } else if str_eq(ext, "zip") {
            Some(CompressionFormat::Zip)
        } else {
            None
        }
    }

    /// Detects the format from a file extension, ignoring case.
    pub fn from_extension(ext: &str) -> (r: Option<Self>)
        ensures
            r == Self::spec_from_extension(lower_of(ext@)),
    {
        let lower = to_lowercase(ext);
        Self::from_lowercase_extension(lower.as_str())
    }

    /// Name of this format's algorithm.
    pub fn name(&self) -> (r: &'static str)
        ensures
            r@ == self.spec_name(),
    {
        match self {
            CompressionFormat::Gzip => "gzip",
            CompressionFormat::Bzip2 => "bzip2",
            CompressionFormat::Xz => "xz",
            CompressionFormat::Tar => "tar",
            CompressionFormat::Zip => "zip",
        }
    }

    /// The format of an already lower-case command name.
    pub fn from_lowercase_name(name: &str) -> (r: Option<Self>)
        ensures
            r == Self::spec_from_name(name@),
    {
        if str_eq(name, "gzip") {
            Some(CompressionFormat::Gzip)
        } else if str_eq(name, "bzip2") {
            Some(CompressionFormat::Bzip2)
        } else if str_eq(name, "xz") {
            Some(CompressionFormat::Xz)
        } else if str_eq(name, "tar") {
            Some(CompressionFormat::Tar)
        } else if str_eq(name, "zip") {
            Some(CompressionFormat::Zip)
        } else {
            None
        }
    }

    /// Creates a format from a command name, ignoring case.
    pub fn from_name(name: &str) -> (r: Option<Self>)
        ensures
            r == Self::spec_from_name(lower_of(name@)),
    {
        let lower = to_lowercase(name);
        Self::from_lowercase_name(lower.as_str())
    }
}

/// Compound format: a tar archive compressed by a second format.
#[derive(Debug, Clone, Copy, PartialEq, Eq, Structural)]
pub enum CompoundFormat {
    /// TAR + GZIP (.tar.gz).
    Tgz,
    /// TAR + BZIP2 (.tar.bz2).
    Tbz2,
    /// TAR + XZ (.tar.xz).
    Txz,
}

impl CompoundFormat {
    /// The compressor applied to the tar archive.
    pub open spec fn spec_secondary(self) -> CompressionFormat {
        match self {
            CompoundFormat::Tgz => CompressionFormat::Gzip,
            CompoundFormat::Tbz2 => CompressionFormat::Bzip2,
            CompoundFormat::Txz => CompressionFormat::Xz,
        }
    }

    /// The compound format that an exact command name selects.
    pub open spec fn spec_from_str(s: Seq<char>) -> Option<CompoundFormat> {
        if s == "tgz"@ {
            Some(CompoundFormat::Tgz)
        } else if s == "tbz2"@ {
            Some(CompoundFormat::Tbz2)
        } else if s == "txz"@ {
            Some(CompoundFormat::Txz)
        } else {
            None
        }
    }

    /// The archiving format: always tar.
    pub fn primary(&self) -> (r: CompressionFormat)
        ensures
            r == CompressionFormat::Tar,
    {
        CompressionFormat::Tar
    }

    /// The compressor applied to the tar archive.
    pub fn secondary(&self) -> (r: CompressionFormat)
        ensures
            r == self.spec_secondary(),
    {
        match self {
            CompoundFormat::Tgz => CompressionFormat::Gzip,
            CompoundFormat::Tbz2 => CompressionFormat::Bzip2,
            CompoundFormat::Txz => CompressionFormat::Xz,
        }
    }

    /// File extension: the tar extension, a dot, the compressor's extension.
    pub fn extension(&self) -> (r: &'static str)
        ensures
            r@ == "tar."@ + self.spec_secondary().spec_extension(),
    {
        let r = match self {
            CompoundFormat::Tgz => "tar.gz",
            CompoundFormat::Tbz2 => "tar.bz2",
            CompoundFormat::Txz => "tar.xz",
        };
        proof {
            reveal_strlit("tar.gz");
            reveal_strlit("tar.bz2");
            reveal_strlit("tar.xz");
            reveal_strlit("tar.");
            reveal_strlit("gz");
            reveal_strlit("bz2");
            reveal_strlit("xz");
        }
        assert(r@ =~= "tar."@ + self.spec_secondary().spec_extension());
        r
    }

    /// The compound format of an already lower-case command name.
    pub fn from_lowercase_str(s: &str) -> (r: Option<Self>)
        ensures
            r == Self::spec_from_str(s@),
    {
        if str_eq(s, "tgz") {
            Some(CompoundFormat::Tgz)
        } else if str_eq(s, "tbz2") {
            Some(CompoundFormat::Tbz2)
        } else if str_eq(s, "txz") {
            Some(CompoundFormat::Txz)
        } else {
            None
        }
    }

    /// Parses a compound format command name, ignoring case.
    pub fn from_str(s: &str) -> (r: Option<Self>)
        ensures
            r == Self::spec_from_str(lower_of(s@)),
    {
        let lower = to_lowercase(s);
        Self::from_lowercase_str(lower.as_str())
    }
}

/// Operation mode.
#[derive(Debug, Clone, Copy, PartialEq, Eq, Structural)]
pub enum OperationMode {
    Compress,
    Decompress,
}

/// Validated input file information.
#[derive(Debug, Clone)]
pub struct InputFile {
    /// Path as given by the user.
    pub original_path: String,
    /// Resolved path, after symbolic links.
    pub real_path: String,
    /// File base name.
    pub basename: String,
    /// Whether the given path was a symbolic link.
    pub was_symlink: bool,
}

/// Detects the compression format from a path's extension, ignoring case.
pub fn detect_format(path: &str) -> (r: Option<CompressionFormat>)
    ensures
        path_extension(path@) is None ==> r is None,
        path_extension(path@) is Some ==> r == CompressionFormat::spec_from_extension(
            lower_of(path_extension(path@)->Some_0),
        ),
{
    match extension_of(path) {
        Some(ext) => CompressionFormat::from_extension(ext),
        None => None,
    }
}

} // verus!
