//! The recorder's settings.

use vstd::prelude::*;

verus! {

/// Settings of the transport and of each output. An interval that is zero
/// or negative disables its output.
pub struct Config {
    pub path: Option<String>,
    pub address: Option<String>,
    pub via_tag: Option<String>,
    pub password: Option<String>,
    pub channel: Option<u8>,
    pub known_packet_ids: Vec<String>,
    pub png_tick_interval: i64,
    pub png_input_filename: String,
    pub png_output_filename: String,
    pub csv_tick_interval: i64,
    pub csv_output_filename_pattern: String,
    pub live_data_text_tick_interval: i64,
    pub live_data_text_output_filename: String,
    pub sqlite_tick_interval: i64,
    pub sqlite_filename: String,
    pub sqlite_datasets_table: Option<String>,
    pub sqlite_fields_table: Option<String>,
    pub sqlite_statement: Option<String>,
    pub sqlite_fields: Option<Vec<String>>,
    pub vsf_filename: Option<String>,
}

/// How the device is reached.
pub enum Transport {
    /// A local serial device at this path.
    Serial(String),
    /// A VBus-over-TCP device at this address.
    Tcp(String),
}

impl Transport {
    /// The transport as a mathematical value: whether it is serial, and
    /// where it leads.
    pub open spec fn model(&self) -> (bool, Seq<char>) {
        match self {
            Transport::Serial(p) => (true, p@),
            Transport::Tcp(a) => (false, a@),
        }
    }
}

impl Config {
    /// The channel to listen on: the configured one, else channel 0.
    pub fn channel_or_default(&self) -> (c: u8)
        ensures
            c == (match self.channel {
                Some(c) => c,
                None => 0,
            }),
    {
        match self.channel {
            Some(c) => c,
            None => 0,
        }
    }

    /// The transport to open: the serial path where one is set, else the
    /// address, else none.
    pub fn transport(&self) -> (t: Option<Transport>)
        ensures
            match t {
                Some(t) => match self.path {
                    Some(p) => t.model() == (true, p@),
                    None => self.address is Some && t.model() == (false, self.address->0@),
                },
                None => self.path is None && self.address is None,
            },
    {
        match &self.path {
            Some(p) => Some(Transport::Serial(p.clone())),
            None => match &self.address {
                Some(a) => Some(Transport::Tcp(a.clone())),
                None => None,
            },
        }
    }

    /// The password for the TCP handshake: the configured one, else `vbus`.
    pub fn password_or_default(&self) -> (p: String)
        ensures
            p@ == (match self.password {
                Some(p) => p@,
                None => "vbus"@,
            }),
    {
        match &self.password {
            Some(p) => p.clone(),
            None => "vbus".to_owned(),
        }
    }
}

} // verus!
