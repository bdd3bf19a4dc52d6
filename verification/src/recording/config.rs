//! How recordings are written.
use vstd::prelude::*;

verus! {

/// The least size of the buffer in front of the file.
pub const IO_BUFFER_BYTES: usize = 4 * 1024 * 1024;

/// The size at which a chunk is sealed, unless configured.
pub const DEFAULT_CHUNK_BYTES: u64 = 10 * 1024 * 1024;

/// The seconds between two flushes, unless configured.
pub const DEFAULT_FLUSH_INTERVAL_SECS: u64 = 30;

/// How chunks are compressed.
#[derive(Debug, Clone, Copy, PartialEq, Eq, Structural)]
pub enum McapCompression {
    Uncompressed,
    Lz4,
    Zstd,
}

impl Default for McapCompression {
    fn default() -> (r: Self)
        ensures
            r == McapCompression::Lz4,
    {
        McapCompression::Lz4
    }
}

/// How a recording is written.
#[derive(Debug, Clone, Copy, PartialEq, Eq, Structural)]
pub struct McapWriteConfig {
    pub compression: McapCompression,
    /// Whether checksums are written.
    pub crc: bool,
    /// The uncompressed size in bytes at which a chunk is sealed.
    pub chunk_size: u64,
    /// The seconds between two flushes.
    pub flush_interval_secs: u64,
}

impl Default for McapWriteConfig {
    fn default() -> (r: Self)
        ensures
            r == (McapWriteConfig {
                compression: McapCompression::Lz4,
                crc: true,
                chunk_size: DEFAULT_CHUNK_BYTES,
                flush_interval_secs: DEFAULT_FLUSH_INTERVAL_SECS,
            }),
            r.wf(),
    {
        McapWriteConfig {
            compression: McapCompression::Lz4,
            crc: true,
            chunk_size: DEFAULT_CHUNK_BYTES,
            flush_interval_secs: DEFAULT_FLUSH_INTERVAL_SECS,
        }
    }
}

/// The options of an MCAP writer.
#[verifier::external_type_specification]
#[verifier::external_body]
pub struct ExWriteOptions(mcap::WriteOptions);

/// The options that this program sets.
pub struct WriteSettings {
    pub compression: McapCompression,
    pub chunk_size: Option<u64>,
    pub compression_threads: u32,
    pub emit_message_indexes: bool,
    pub chunk_crcs: bool,
    pub data_section_crc: bool,
    pub summary_section_crc: bool,
    pub attachment_crcs: bool,
}

/// What `mcap::WriteOptions` hold of the options that this program sets.
pub uninterp spec fn write_settings(options: mcap::WriteOptions) -> WriteSettings;

/// `mcap::WriteOptions::new` gives the default options. They write message indexes and all
/// checksums; the rest is not stated, as the number of threads depends on the machine.
#[verifier::external_body]
fn default_options() -> (r: mcap::WriteOptions)
    ensures
        write_settings(r).emit_message_indexes,
        write_settings(r).chunk_crcs,
        write_settings(r).data_section_crc,
        write_settings(r).summary_section_crc,
        write_settings(r).attachment_crcs,
{
    mcap::WriteOptions::new()
}

/// `mcap::WriteOptions::compression` sets the compression and nothing else.
#[verifier::external_body]
fn with_compression(options: mcap::WriteOptions, compression: McapCompression) -> (r:
    mcap::WriteOptions)
    ensures
        write_settings(r) == (WriteSettings { compression, ..write_settings(options) }),
{
    options.compression(
        match compression {
            McapCompression::Uncompressed => None,
            McapCompression::Lz4 => Some(mcap::Compression::Lz4),
            McapCompression::Zstd => Some(mcap::Compression::Zstd),
        },
    )
}

/// `mcap::WriteOptions::chunk_size` sets the chunk size and nothing else.
#[verifier::external_body]
fn with_chunk_size(options: mcap::WriteOptions, chunk_size: Option<u64>) -> (r: mcap::WriteOptions)
    ensures
        write_settings(r) == (WriteSettings { chunk_size, ..write_settings(options) }),
{
    options.chunk_size(chunk_size)
}

/// `mcap::WriteOptions::compression_threads` sets the number of threads and nothing else.
#[verifier::external_body]
fn with_compression_threads(options: mcap::WriteOptions, compression_threads: u32) -> (r:
    mcap::WriteOptions)
    ensures
        write_settings(r) == (WriteSettings { compression_threads, ..write_settings(options) }),
{
    options.compression_threads(compression_threads)
}

/// `mcap::WriteOptions::emit_message_indexes` switches message indexes and nothing else.
#[verifier::external_body]
fn with_message_indexes(options: mcap::WriteOptions, emit_message_indexes: bool) -> (r:
    mcap::WriteOptions)
    ensures
        write_settings(r) == (WriteSettings { emit_message_indexes, ..write_settings(options) }),
{
    options.emit_message_indexes(emit_message_indexes)
}

/// `mcap::WriteOptions::calculate_chunk_crcs` switches chunk checksums and nothing else.
#[verifier::external_body]
fn with_chunk_crcs(options: mcap::WriteOptions, chunk_crcs: bool) -> (r: mcap::WriteOptions)
    ensures
        write_settings(r) == (WriteSettings { chunk_crcs, ..write_settings(options) }),
{
    options.calculate_chunk_crcs(chunk_crcs)
}

/// `mcap::WriteOptions::calculate_data_section_crc` switches the data section's checksum and
/// nothing else.
#[verifier::external_body]
fn with_data_section_crc(options: mcap::WriteOptions, data_section_crc: bool) -> (r:
    mcap::WriteOptions)
    ensures
        write_settings(r) == (WriteSettings { data_section_crc, ..write_settings(options) }),
{
    options.calculate_data_section_crc(data_section_crc)
}

/// `mcap::WriteOptions::calculate_summary_section_crc` switches the summary's checksum and
/// nothing else.
#[verifier::external_body]
fn with_summary_section_crc(options: mcap::WriteOptions, summary_section_crc: bool) -> (r:
    mcap::WriteOptions)
    ensures
        write_settings(r) == (WriteSettings { summary_section_crc, ..write_settings(options) }),
{
    options.calculate_summary_section_crc(summary_section_crc)
}

/// `mcap::WriteOptions::calculate_attachment_crcs` switches attachment checksums and nothing
/// else.
#[verifier::external_body]
fn with_attachment_crcs(options: mcap::WriteOptions, attachment_crcs: bool) -> (r:
    mcap::WriteOptions)
    ensures
        write_settings(r) == (WriteSettings { attachment_crcs, ..write_settings(options) }),
{
    options.calculate_attachment_crcs(attachment_crcs)
}

/// The settings of the file that a configuration asks for.
pub open spec fn settings_of(config: McapWriteConfig) -> WriteSettings {
    WriteSettings {
        compression: config.compression,
        chunk_size: Some(config.chunk_size),
        compression_threads: if config.compression == McapCompression::Uncompressed {
            0
        } else {
            2
        },
        emit_message_indexes: true,
        chunk_crcs: config.crc,
        data_section_crc: config.crc,
        summary_section_crc: config.crc,
        attachment_crcs: config.crc,
    }
}

impl McapWriteConfig {
    /// Sizes and intervals are not zero.
    pub open spec fn wf(&self) -> bool {
        self.chunk_size > 0 && self.flush_interval_secs > 0
    }

    /// The size of the buffer in front of the file: that of a chunk, or the least one.
    pub fn io_buffer_bytes(&self) -> (r: usize)
        ensures
            r == (if self.chunk_size as usize > IO_BUFFER_BYTES {
                self.chunk_size as usize
            } else {
                IO_BUFFER_BYTES
            }),
            self.chunk_size <= usize::MAX ==> r >= self.chunk_size,
            r >= IO_BUFFER_BYTES,
    {
        let chunk_size: usize = self.chunk_size as usize;
        if chunk_size > IO_BUFFER_BYTES {
            chunk_size
        } else {
            IO_BUFFER_BYTES
        }
    }

    /// The options of the writer. Only compressed chunks are given to worker threads. Messages
    /// are always indexed.
    pub fn write_options(self) -> (r: mcap::WriteOptions)
        ensures
            write_settings(r) == settings_of(self),
    {
        let threads: u32 = match self.compression {
            McapCompression::Uncompressed => 0,
            _ => 2,
        };
        let options = with_compression(default_options(), self.compression);
        let options = with_chunk_size(options, Some(self.chunk_size));
        let options = with_compression_threads(options, threads);
        let options = with_message_indexes(options, true);
        let options = with_chunk_crcs(options, self.crc);
        let options = with_data_section_crc(options, self.crc);
        let options = with_summary_section_crc(options, self.crc);
        with_attachment_crcs(options, self.crc)
    }
}

/// Compression is done on threads of its own, and only if there is any; checksums are all there or
/// all missing, as configured; messages are always indexed; chunks are as large as configured.
pub proof fn lemma_settings(config: McapWriteConfig)
    ensures
        settings_of(config).compression == config.compression,
        settings_of(config).chunk_size == Some(config.chunk_size),
        settings_of(config).compression_threads == 0 <==> config.compression
            == McapCompression::Uncompressed,
        settings_of(config).compression_threads <= 2,
        settings_of(config).compression_threads != 1,
        settings_of(config).emit_message_indexes,
        settings_of(config).chunk_crcs == config.crc,
        settings_of(config).data_section_crc == config.crc,
        settings_of(config).summary_section_crc == config.crc,
        settings_of(config).attachment_crcs == config.crc,
{
}

/// The buffer holds at least four mebibytes and at least a chunk, and no more than the larger of
/// the two.
pub proof fn lemma_buffer(config: &McapWriteConfig, r: usize)
    requires
        call_ensures(McapWriteConfig::io_buffer_bytes, (config,), r),
        config.chunk_size <= usize::MAX,
    ensures
        r >= 4_194_304,
        r >= config.chunk_size,
        r == 4_194_304 || r == config.chunk_size,
{
}

/// Unless configured, chunks of ten mebibytes are compressed with LZ4 and have checksums, and the
/// file is flushed every 30 seconds.
pub proof fn lemma_defaults(r: McapWriteConfig)
    requires
        call_ensures(McapWriteConfig::default, (), r),
    ensures
        r.compression == McapCompression::Lz4,
        r.crc,
        r.chunk_size == 10_485_760,
        r.flush_interval_secs == 30,
{
}

/// Files are written as configured: checksums of all kinds or none, and extra threads only to
/// compress.
pub proof fn lemma_files_are_written(config: McapWriteConfig, r: mcap::WriteOptions)
    requires
        call_ensures(McapWriteConfig::write_options, (config,), r),
    ensures
        write_settings(r).compression == config.compression,
        write_settings(r).chunk_size == Some(config.chunk_size),
        write_settings(r).compression_threads == 0 <==> config.compression
            == McapCompression::Uncompressed,
        write_settings(r).compression_threads == 2 <==> config.compression
            != McapCompression::Uncompressed,
        write_settings(r).emit_message_indexes,
        write_settings(r).chunk_crcs == config.crc,
        write_settings(r).data_section_crc == config.crc,
        write_settings(r).summary_section_crc == config.crc,
        write_settings(r).attachment_crcs == config.crc,
{
    lemma_settings(config);
}

} // verus!
