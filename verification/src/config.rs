//! Configuration consumed by the core: the routing-device endpoint, the
//! player command template and start delay, the data directory, and the list
//! of administrator users. Reading the values from the environment is the
//! caller's concern; deriving the application paths and answering
//! authorization queries is specified here.

use vstd::prelude::*;
use vstd::string::StringExecFns;

verus! {

/// Values supplied by the environment.
pub struct EnvConfig {
    pub ahm_host: String,
    pub ahm_port: u16,
    pub bot_token: String,
    pub admin_users: Vec<i64>,
    pub player_command: String,
    pub player_start_delay: u64,
    pub data_dir: String,
}

/// The routing-device port assumed when the environment names none.
pub fn default_ahm_port() -> (port: u16)
    ensures
        port == 51325,
{
    51325
}

/// The player start delay assumed when the environment names none.
pub fn default_player_start_delay() -> (delay: u64)
    ensures
        delay == 0,
{
    0
}

/// The data directory assumed when the environment names none.
pub fn default_data_dir() -> (dir: String)
    ensures
        dir@ == "./data"@,
{
    "./data".to_owned()
}

/// The environment values together with the paths derived from them.
pub struct AppConfig {
    pub env: EnvConfig,
    pub audio_dir: String,
    pub db_file: String,
}

impl AppConfig {
    /// Derives the audio directory and database file under the configured
    /// data directory.
    pub fn init(env: EnvConfig) -> (config: AppConfig)
        ensures
            config.env == env,
            config.audio_dir@ == env.data_dir@ + "/audios"@,
            config.db_file@ == env.data_dir@ + "/bot.db"@,
    {
        let audio_dir = env.data_dir.clone().concat("/audios");
        let db_file = env.data_dir.clone().concat("/bot.db");
        AppConfig { env, audio_dir, db_file }
    }

    /// Whether `id` names one of the configured administrator users.
    pub fn is_admin(&self, id: &i64) -> (r: bool)
        ensures
            r == self.env.admin_users@.contains(*id),
    {
        let mut i: usize = 0;
        while i < self.env.admin_users.len()
            invariant
                0 <= i <= self.env.admin_users@.len(),
                forall|j: int| 0 <= j < i ==> self.env.admin_users@[j] != *id,
            decreases self.env.admin_users@.len() - i,
        {
            if self.env.admin_users[i] == *id {
                proof {
                    assert(self.env.admin_users@.contains(*id));
                }
                return true;
            }
            i = i + 1;
        }
        false
    }
}

} // verus!
