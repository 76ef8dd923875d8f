//! Turns the content of a configuration file into command-line arguments, so
//! that a tool whose argument parser only reads the command line can be
//! configured from a file as well.
//!
//! A configuration is a table of keyed values. Each entry is written as
//! arguments under its key: `--key=value` for a string, an integer, a float
//! or a timestamp, the bare flag `--key` for `true` and nothing for `false`,
//! and one argument per item for an array of these. A [`Merger`] finds the
//! arguments that refer to configuration files in an argument list and puts
//! the arguments of each file in the place of the reference.
//!
//! Nothing here touches the process or the file system: the caller hands in
//! the argument list and the bytes of each file that the merger asks for.
//!
//! ```
//! use confargs::{Merger, PrefixChar, Step, Toml};
//!
//! let args = vec!["prog".to_string(), "@conf.toml".to_string(), "-v".to_string()];
//! let mut merger = Merger::new(args);
//! let merged = loop {
//!     match merger.step(&PrefixChar('@')) {
//!         Step::Load(pending) => {
//!             assert_eq!(pending.path(), "conf.toml");
//!             let bytes = b"name = \"x\"\nlevels = [1, 2]".to_vec();
//!             merger = pending.supply::<Toml>(Ok(bytes)).unwrap();
//!         }
//!         Step::Done(merged) => break merged,
//!     }
//! };
//! assert_eq!(merged, ["prog", "--levels=1", "--levels=2", "--name=x", "-v"]);
//! ```

pub mod error;
pub mod format;
pub mod merge;
pub mod scalar;
pub mod table;
pub mod text;
pub mod value;

pub use error::{ConfigError, Error, Shape};
pub use format::{Config, Config as Toml, Format};
pub use merge::{prefix_char_filter, Filter, Merger, Pending, PrefixChar, Step};
pub use scalar::{parse_bool_arg, parse_string_arg};
pub use table::{parse_arg, parse_primitive_arg, ArrayIterator};
pub use value::ConfigValue;
