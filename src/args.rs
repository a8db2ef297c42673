//! Command-line arguments, their consistency rules, and the plan of work
//! that they select.
use vstd::prelude::*;
use vstd::string::{StrSliceExecFns, StringExecFns};
use crate::config::{
    CollectionMode, CompressionConfig, DecryptionMethod, EncryptionMethod, TimestampOption,
};
use crate::text::str_eq;

verus! {

/// Parsed command-line arguments.
#[derive(Debug, Clone)]
pub struct CliArgs {
    /// Decompress mode.
    pub decompress: bool,
    /// Overwrite without prompting.
    pub force: bool,
    /// Compression command.
    pub command: String,
    /// Compression level.
    pub level: u8,
    /// Destination directory for outputs.
    pub move_to: Option<String>,
    /// Collect the inputs into an archive of this name, with parent directory.
    pub collect: Option<String>,
    /// Collect the inputs into an archive of this name, flat.
    pub collect_flat: Option<String>,
    /// Timestamp option: 0 none, 1 date, 2 date and time, 3 nanoseconds.
    pub timestamp: u8,
    /// Input files or directories.
    pub inputs: Vec<String>,
    /// Enable password-based encryption.
    pub encrypt_password: bool,
    /// RSA public key file for encryption.
    pub encrypt_key: Option<String>,
    /// RSA private key file for decryption.
    pub decrypt_key: Option<String>,
    /// Remove the encrypted file after successful decryption.
    pub remove_encrypted: bool,
}

/// The character for decimal digit `d`.
pub open spec fn digit(d: int) -> char {
    "0123456789"@[d]
}

/// Decimal notation of a byte value, without leading zeros.
pub open spec fn decimal(v: u8) -> Seq<char> {
    if v < 10 {
        seq![digit(v as int)]
    } else if v < 100 {
        seq![digit((v / 10) as int), digit((v % 10) as int)]
    } else {
        seq![digit((v / 100) as int), digit(((v / 10) % 10) as int), digit((v % 10) as int)]
    }
}

/// Appends the character for decimal digit `d`.
fn push_digit(s: &mut String, d: u8)
    requires
        d < 10,
    ensures
        final(s)@ == old(s)@.push(digit(d as int)),
{
    let digits = "0123456789";
    proof {
        reveal_strlit("0123456789");
    }
    let one = digits.substring_char(d as usize, d as usize + 1);
    s.append(one);
    assert(one@ =~= seq![digit(d as int)]);
    assert(s@ =~= old(s)@.push(digit(d as int)));
}

/// Decimal notation of a byte value.
fn decimal_text(v: u8) -> (r: String)
    ensures
        r@ == decimal(v),
{
    let mut s = String::new();
    if v >= 100 {
        push_digit(&mut s, v / 100);
    }
    if v >= 10 {
        push_digit(&mut s, (v / 10) % 10);
    }
    push_digit(&mut s, v % 10);
    assert(s@ =~= decimal(v));
    s
}

/// The compression commands that the tool knows.
pub open spec fn is_valid_command(c: Seq<char>) -> bool {
    ||| c == "gzip"@
    ||| c == "bzip2"@
    ||| c == "xz"@
    ||| c == "tar"@
    ||| c == "zip"@
    ||| c == "tgz"@
    ||| c == "tbz2"@
    ||| c == "txz"@
}

/// The first rule that the arguments break, as its message, in the order
/// the rules are checked; `None` when the arguments are consistent.
pub open spec fn validation_error(a: CliArgs) -> Option<Seq<char>> {
    if a.timestamp > 3 {
        Some("Invalid timestamp option: "@ + decimal(a.timestamp))
    } else if !is_valid_command(a.command@) {
        Some("Invalid compression command: "@ + a.command@)
    } else if a.collect is Some && a.collect_flat is Some {
        Some("Cannot specify both -a and -A"@)
    } else if a.encrypt_password && a.encrypt_key is Some {
        Some("Cannot specify both --encrypt-password and --encrypt-key"@)
    } else if a.decompress && a.encrypt_password {
        Some("--encrypt-password can only be used in compression mode"@)
    } else if a.decompress && a.encrypt_key is Some {
        Some("--encrypt-key can only be used in compression mode"@)
    } else if !a.decompress && a.decrypt_key is Some {
        Some("--decrypt-key can only be used in decompression mode"@)
    } else if !a.decompress && a.remove_encrypted {
        Some("--remove-encrypted can only be used in decompression mode"@)
    } else {
        None
    }
}

/// Whether `c` names one of the known compression commands.
fn valid_command(c: &str) -> (r: bool)
    ensures
        r == is_valid_command(c@),
{
    str_eq(c, "gzip") || str_eq(c, "bzip2") || str_eq(c, "xz") || str_eq(c, "tar") || str_eq(
        c,
        "zip",
    ) || str_eq(c, "tgz") || str_eq(c, "tbz2") || str_eq(c, "txz")
}

impl CliArgs {
    /// Checks the arguments' consistency rules in order and reports the
    /// first that is broken.
    pub fn validate(&self) -> (r: Result<(), String>)
        ensures
            match validation_error(*self) {
                None => r is Ok,
                Some(msg) => r is Err && r->Err_0@ == msg,
            },
    {
        if self.timestamp > 3 {
            let msg = "Invalid timestamp option: ".to_owned();
            return Err(msg.concat(decimal_text(self.timestamp).as_str()));
        }
        if !valid_command(self.command.as_str()) {
            let msg = "Invalid compression command: ".to_owned();
            return Err(msg.concat(self.command.as_str()));
        }
        if self.collect.is_some() && self.collect_flat.is_some() {
            return Err("Cannot specify both -a and -A".to_owned());
        }
        if self.encrypt_password && self.encrypt_key.is_some() {
            return Err("Cannot specify both --encrypt-password and --encrypt-key".to_owned());
        }
        if self.decompress {
            if self.encrypt_password {
                return Err("--encrypt-password can only be used in compression mode".to_owned());
            }
            if self.encrypt_key.is_some() {
                return Err("--encrypt-key can only be used in compression mode".to_owned());
            }
        }
        if !self.decompress && self.decrypt_key.is_some() {
            return Err("--decrypt-key can only be used in decompression mode".to_owned());
        }
        if !self.decompress && self.remove_encrypted {
            return Err("--remove-encrypted can only be used in decompression mode".to_owned());
        }
        Ok(())
    }
}

/// The work that a consistent set of arguments selects.
#[derive(Debug, Clone)]
pub enum CommandPlan {
    /// Decompress (and decrypt, where needed) the inputs.
    Decompress {
        config: CompressionConfig,
        decryption: Option<DecryptionMethod>,
        remove_encrypted: bool,
    },
    /// Collect the inputs into one compound archive.
    Collect { command: String, package_name: String, mode: CollectionMode, config: CompressionConfig },
    /// Compress each input on its own.
    Compress { command: String, config: CompressionConfig },
}

/// The encryption method that the arguments select.
pub open spec fn planned_encryption(a: CliArgs) -> Option<EncryptionMethod> {
    if a.encrypt_password {
        Some(EncryptionMethod::Password)
    } else if a.encrypt_key is Some {
        Some(EncryptionMethod::Rsa { public_key_path: a.encrypt_key->Some_0 })
    } else {
        None
    }
}

/// The compression configuration that consistent arguments select.
pub open spec fn planned_config(a: CliArgs) -> CompressionConfig {
    CompressionConfig {
        level: a.level,
        timestamp: TimestampOption::spec_from_u8(a.timestamp)->Some_0,
        move_to: a.move_to,
        show_output_size: false,
        force: a.force,
        encryption: planned_encryption(a),
    }
}

/// The plan that consistent arguments select.
pub open spec fn planned(a: CliArgs) -> CommandPlan {
    if a.decompress {
        CommandPlan::Decompress {
            config: planned_config(a),
            decryption: if a.decrypt_key is Some {
                Some(DecryptionMethod::Rsa { private_key_path: a.decrypt_key->Some_0 })
            } else {
                None
            },
            remove_encrypted: a.remove_encrypted,
        }
    } else if a.collect is Some || a.collect_flat is Some {
        CommandPlan::Collect {
            command: a.command,
            package_name: if a.collect is Some {
                a.collect->Some_0
            } else {
                a.collect_flat->Some_0
            },
            mode: if a.collect is Some {
                CollectionMode::WithParent
            } else {
                CollectionMode::Flat
            },
            config: planned_config(a),
        }
    } else {
        CommandPlan::Compress { command: a.command, config: planned_config(a) }
    }
}

/// Checks the arguments and decides the work they select, before any file
/// is touched.
pub fn plan_command(args: &CliArgs) -> (r: Result<CommandPlan, String>)
    ensures
        match validation_error(*args) {
            None => r is Ok && r->Ok_0 == planned(*args),
            Some(msg) => r is Err && r->Err_0@ == msg,
        },
{
    args.validate()?;
    let timestamp = match TimestampOption::from_u8(args.timestamp) {
        Some(t) => t,
        None => {
            return Err("Invalid timestamp option".to_owned());
        },
    };
    let config = CompressionConfig::new().with_level(args.level).with_timestamp(timestamp).with_force(
        args.force,
    );
    let config = match &args.move_to {
        Some(path) => config.with_move_to(path.clone()),
        None => config,
    };
    let config = if args.encrypt_password {
        config.with_encryption(Some(EncryptionMethod::Password))
    } else {
        match &args.encrypt_key {
            Some(path) => config.with_encryption(
                Some(EncryptionMethod::Rsa { public_key_path: path.clone() }),
            ),
            None => config,
        }
    };
    if args.decompress {
        let decryption = match &args.decrypt_key {
            Some(path) => Some(DecryptionMethod::Rsa { private_key_path: path.clone() }),
            None => None,
        };
        Ok(CommandPlan::Decompress { config, decryption, remove_encrypted: args.remove_encrypted })
    } else if args.collect.is_some() || args.collect_flat.is_some() {
        let (package_name, mode) = match &args.collect {
            Some(name) => (name.clone(), CollectionMode::WithParent),
            None => match &args.collect_flat {
                Some(name) => (name.clone(), CollectionMode::Flat),
                None => (String::new(), CollectionMode::Flat),
            },
        };
        Ok(CommandPlan::Collect { command: args.command.clone(), package_name, mode, config })
    } else {
        Ok(CommandPlan::Compress { command: args.command.clone(), config })
    }
}

} // verus!
