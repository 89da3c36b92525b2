//! Document storage configuration.

use vstd::prelude::*;

verus! {

/// Configuration of the cloud bucket store.
#[derive(Debug)]
pub struct GcpConfig {
    pub root_folder: String,
    pub bucket_name: String,
}

/// Configuration of the local file store.
#[derive(Debug)]
pub struct LocalConfig {
    pub root_folder: String,
}

#[derive(Debug)]
pub enum StorageConfig {
    Gcp(GcpConfig),
    Local(LocalConfig),
}

/// A stored document's path.
#[derive(Debug, Clone)]
pub struct LocationInStorage<'a> {
    pub path: &'a str,
}

/// A store rooted at a local folder.
#[derive(Debug)]
pub struct LocalClient {
    root_folder: String,
}

pub open spec fn documents_suffix() -> Seq<char> {
    seq!['-', 'l', 'a', 'n', 'a', '-', 'd', 'o', 'c', 'u', 'm', 'e', 'n', 't', 's']
}

impl Default for GcpConfig {
    fn default() -> (r: GcpConfig)
        ensures
            r.root_folder@ == Seq::<char>::empty(),
            r.bucket_name@ == Seq::<char>::empty(),
    {
        GcpConfig { root_folder: String::new(), bucket_name: String::new() }
    }
}

impl Default for LocalConfig {
    fn default() -> (r: LocalConfig)
        ensures
            r.root_folder@ == Seq::<char>::empty(),
    {
        LocalConfig { root_folder: String::new() }
    }
}

impl GcpConfig {
    /// Development settings: the bucket is `<prefix>-lana-documents` and the
    /// root folder is the prefix.
    pub fn new_dev_mode(name_prefix: String) -> (r: GcpConfig)
        ensures
            r.bucket_name@ == name_prefix@ + documents_suffix(),
            r.root_folder@ == name_prefix@,
    {
        proof {
            reveal_strlit("-lana-documents");
        }
        let mut bucket_name = name_prefix.clone();
        bucket_name.append("-lana-documents");
        assert(bucket_name@ =~= name_prefix@ + documents_suffix());
        GcpConfig { bucket_name, root_folder: name_prefix }
    }
}

impl Default for StorageConfig {
    fn default() -> (r: StorageConfig)
        ensures
            r matches StorageConfig::Gcp(c) && c.root_folder@ == Seq::<char>::empty()
                && c.bucket_name@ == Seq::<char>::empty(),
    {
        StorageConfig::Gcp(GcpConfig::default())
    }
}

impl StorageConfig {
    pub fn new_gcp_dev_mode(name_prefix: String) -> (r: StorageConfig)
        ensures
            r matches StorageConfig::Gcp(c) && c.bucket_name@ == name_prefix@ + documents_suffix()
                && c.root_folder@ == name_prefix@,
    {
        StorageConfig::Gcp(GcpConfig::new_dev_mode(name_prefix))
    }

    pub fn new_gcp(bucket_name: String, root_folder: String) -> (r: StorageConfig)
        ensures
            r matches StorageConfig::Gcp(c) && c.bucket_name == bucket_name && c.root_folder
                == root_folder,
    {
        StorageConfig::Gcp(GcpConfig { bucket_name, root_folder })
    }

    pub fn new_local(root_folder: String) -> (r: StorageConfig)
        ensures
            r matches StorageConfig::Local(c) && c.root_folder == root_folder,
    {
        StorageConfig::Local(LocalConfig { root_folder })
    }
}

impl LocalClient {
    pub fn new(config: &LocalConfig) -> (r: LocalClient)
        ensures
            r.root() == config.root_folder@,
    {
        LocalClient { root_folder: config.root_folder.clone() }
    }

    pub closed spec fn root(&self) -> Seq<char> {
        self.root_folder@
    }

    /// The folder the store is rooted at.
    pub fn root_folder(&self) -> (r: &str)
        ensures
            r@ == self.root(),
    {
        self.root_folder.as_str()
    }
}

} // verus!
