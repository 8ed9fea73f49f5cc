//! The metadatas table: slots keyed by (data key, program id, public key,
//! alias, version), each holding the pointer to its latest content block.
use vstd::prelude::*;
use crate::error::ServiceError;
use crate::metadatas::Metadata;
use crate::storage_impl::{RQLiteResult, Row, Storage};

verus! {

/// Does this slot bear the given five identifying fields?
pub open spec fn metadata_key_matches(
    m: Metadata,
    data_key: Seq<char>,
    program_id: Seq<char>,
    public_key: Seq<char>,
    alias: Seq<char>,
    version: Seq<char>,
) -> bool {
    m.data_key@ == data_key && m.program_id@ == program_id && m.public_key@ == public_key
        && m.alias@ == alias && m.version@ == version
}

/// The first slot matching the five identifying fields, scanning forward.
pub open spec fn spec_find_metadata(
    metas: Seq<Metadata>,
    data_key: Seq<char>,
    program_id: Seq<char>,
    public_key: Seq<char>,
    alias: Seq<char>,
    version: Seq<char>,
) -> Option<Metadata>
    decreases metas.len(),
{
    if metas.len() == 0 {
        None
    } else if metadata_key_matches(metas[0], data_key, program_id, public_key, alias, version) {
        Some(metas[0])
    } else {
        spec_find_metadata(metas.drop_first(), data_key, program_id, public_key, alias, version)
    }
}

/// What the finder's outcome says of the table.
pub proof fn lemma_find_metadata_props(
    metas: Seq<Metadata>,
    data_key: Seq<char>,
    program_id: Seq<char>,
    public_key: Seq<char>,
    alias: Seq<char>,
    version: Seq<char>,
)
    ensures
        match spec_find_metadata(metas, data_key, program_id, public_key, alias, version) {
            Some(m) => exists|i: int|
                0 <= i < metas.len() && (#[trigger] metas[i]) == m && metadata_key_matches(
                    metas[i],
                    data_key,
                    program_id,
                    public_key,
                    alias,
                    version,
                ),
            None => forall|i: int|
                0 <= i < metas.len() ==> !metadata_key_matches(
                    #[trigger] metas[i],
                    data_key,
                    program_id,
                    public_key,
                    alias,
                    version,
                ),
        },
    decreases metas.len(),
{
    if metas.len() > 0 && !metadata_key_matches(
        metas[0],
        data_key,
        program_id,
        public_key,
        alias,
        version,
    ) {
        lemma_find_metadata_props(
            metas.drop_first(),
            data_key,
            program_id,
            public_key,
            alias,
            version,
        );
        match spec_find_metadata(
            metas.drop_first(),
            data_key,
            program_id,
            public_key,
            alias,
            version,
        ) {
            Some(m) => {
                let j = choose|j: int|
                    0 <= j < metas.drop_first().len() && (#[trigger] metas.drop_first()[j]) == m
                        && metadata_key_matches(
                        metas.drop_first()[j],
                        data_key,
                        program_id,
                        public_key,
                        alias,
                        version,
                    );
                assert(metas[j + 1] == metas.drop_first()[j]);
            },
            None => {
                assert forall|i: int| 0 <= i < metas.len() implies !metadata_key_matches(
                    #[trigger] metas[i],
                    data_key,
                    program_id,
                    public_key,
                    alias,
                    version,
                ) by {
                    if i > 0 {
                        assert(metas.drop_first()[i - 1] == metas[i]);
                        assert(!metadata_key_matches(
                            metas.drop_first()[i - 1],
                            data_key,
                            program_id,
                            public_key,
                            alias,
                            version,
                        ));
                    }
                }
            },
        }
    }
}

/// Appending a slot with fresh identifying fields leaves other lookups
/// unchanged and makes the new slot findable.
pub proof fn lemma_find_metadata_push(
    metas: Seq<Metadata>,
    m: Metadata,
    data_key: Seq<char>,
    program_id: Seq<char>,
    public_key: Seq<char>,
    alias: Seq<char>,
    version: Seq<char>,
)
    ensures
        spec_find_metadata(metas, data_key, program_id, public_key, alias, version) is Some
            ==> spec_find_metadata(metas.push(m), data_key, program_id, public_key, alias, version)
            == spec_find_metadata(metas, data_key, program_id, public_key, alias, version),
        spec_find_metadata(metas, data_key, program_id, public_key, alias, version) is None
            && metadata_key_matches(m, data_key, program_id, public_key, alias, version)
            ==> spec_find_metadata(metas.push(m), data_key, program_id, public_key, alias, version)
            == Some(m),
        spec_find_metadata(metas, data_key, program_id, public_key, alias, version) is None
            && !metadata_key_matches(m, data_key, program_id, public_key, alias, version)
            ==> spec_find_metadata(
            metas.push(m),
            data_key,
            program_id,
            public_key,
            alias,
            version,
        ) is None,
    decreases metas.len(),
{
    if metas.len() == 0 {
        assert(metas.push(m)[0] == m);
        assert(metas.push(m).drop_first() =~= Seq::<Metadata>::empty());
        assert(spec_find_metadata(
            Seq::<Metadata>::empty(),
            data_key,
            program_id,
            public_key,
            alias,
            version,
        ) is None);
    } else {
        lemma_find_metadata_push(
            metas.drop_first(),
            m,
            data_key,
            program_id,
            public_key,
            alias,
            version,
        );
        assert(metas.push(m)[0] == metas[0]);
        assert(metas.push(m).drop_first() =~= metas.drop_first().push(m));
        assert(spec_find_metadata(metas.push(m), data_key, program_id, public_key, alias, version)
            == (if metadata_key_matches(metas[0], data_key, program_id, public_key, alias, version) {
            Some(metas[0])
        } else {
            spec_find_metadata(
                metas.drop_first().push(m),
                data_key,
                program_id,
                public_key,
                alias,
                version,
            )
        }));
        assert(spec_find_metadata(metas, data_key, program_id, public_key, alias, version) == (
        if metadata_key_matches(metas[0], data_key, program_id, public_key, alias, version) {
            Some(metas[0])
        } else {
            spec_find_metadata(
                metas.drop_first(),
                data_key,
                program_id,
                public_key,
                alias,
                version,
            )
        }));
    }
}

/// The first slot bearing a data key, public key and alias, whatever its
/// program id and version, scanning forward.
pub open spec fn spec_find_metadata_by_owner(
    metas: Seq<Metadata>,
    data_key: Seq<char>,
    public_key: Seq<char>,
    alias: Seq<char>,
) -> Option<Metadata>
    decreases metas.len(),
{
    if metas.len() == 0 {
        None
    } else if metas[0].data_key@ == data_key && metas[0].public_key@ == public_key
        && metas[0].alias@ == alias {
        Some(metas[0])
    } else {
        spec_find_metadata_by_owner(metas.drop_first(), data_key, public_key, alias)
    }
}

/// What the owner finder's outcome says of the table.
pub proof fn lemma_find_metadata_by_owner_props(
    metas: Seq<Metadata>,
    data_key: Seq<char>,
    public_key: Seq<char>,
    alias: Seq<char>,
)
    ensures
        match spec_find_metadata_by_owner(metas, data_key, public_key, alias) {
            Some(m) => exists|i: int|
                0 <= i < metas.len() && (#[trigger] metas[i]) == m && m.data_key@ == data_key
                    && m.public_key@ == public_key && m.alias@ == alias,
            None => forall|i: int|
                0 <= i < metas.len() ==> !((#[trigger] metas[i]).data_key@ == data_key
                    && metas[i].public_key@ == public_key && metas[i].alias@ == alias),
        },
    decreases metas.len(),
{
    if metas.len() > 0 && !(metas[0].data_key@ == data_key && metas[0].public_key@ == public_key
        && metas[0].alias@ == alias) {
        lemma_find_metadata_by_owner_props(metas.drop_first(), data_key, public_key, alias);
        match spec_find_metadata_by_owner(metas.drop_first(), data_key, public_key, alias) {
            Some(m) => {
                let j = choose|j: int|
                    0 <= j < metas.drop_first().len() && (#[trigger] metas.drop_first()[j]) == m
                        && m.data_key@ == data_key && m.public_key@ == public_key && m.alias@
                        == alias;
                assert(metas[j + 1] == metas.drop_first()[j]);
            },
            None => {
                assert forall|i: int| 0 <= i < metas.len() implies !((
                #[trigger] metas[i]).data_key@ == data_key && metas[i].public_key@ == public_key
                    && metas[i].alias@ == alias) by {
                    if i > 0 {
                        assert(metas.drop_first()[i - 1] == metas[i]);
                        assert(!(metas.drop_first()[i - 1].data_key@ == data_key
                            && metas.drop_first()[i - 1].public_key@ == public_key
                            && metas.drop_first()[i - 1].alias@ == alias));
                    }
                }
            },
        }
    }
}

/// A slot with its pointer replaced.
pub open spec fn spec_with_cid(m: Metadata, cid: String) -> Metadata {
    Metadata { cid, ..m }
}

/// The table after a pointer update: every slot matching the five fields
/// gets the new cid, the rest stay as they were.
pub open spec fn spec_update_cid(
    metas: Seq<Metadata>,
    data_key: Seq<char>,
    program_id: Seq<char>,
    alias: Seq<char>,
    public_key: Seq<char>,
    cid: String,
    version: Seq<char>,
) -> Seq<Metadata> {
    metas.map(
        |i: int, m: Metadata|
            if metadata_key_matches(m, data_key, program_id, public_key, alias, version) {
                spec_with_cid(m, cid)
            } else {
                m
            },
    )
}

impl Storage {
    /// The in-memory table always exists; creation is kept for interface
    /// parity and changes nothing.
    pub fn create_metadatas_table(&self) {
    }

    /// Record a new slot. The five identifying fields are the slot's key:
    /// a second write under an existing key leaves the table as it is.
    pub fn write_metadata(&mut self, metadata: Metadata) -> (r: Result<(), ServiceError>)
        requires
            metadata.wf(),
        ensures
            r is Ok,
            spec_find_metadata(
                old(self).metadatas@,
                metadata.data_key@,
                metadata.program_id@,
                metadata.public_key@,
                metadata.alias@,
                metadata.version@,
            ) is Some ==> final(self).metadatas@ == old(self).metadatas@,
            spec_find_metadata(
                old(self).metadatas@,
                metadata.data_key@,
                metadata.program_id@,
                metadata.public_key@,
                metadata.alias@,
                metadata.version@,
            ) is None ==> final(self).metadatas@ =~= old(self).metadatas@.push(metadata),
            old(self).metadatas_wf() ==> final(self).metadatas_wf(),
            final(self).transactions@ == old(self).transactions@,
            final(self).meta_contracts@ == old(self).meta_contracts@,
            final(self).crons@ == old(self).crons@,
            final(self).cron_txs@ == old(self).cron_txs@,
            final(self).transaction_receipts@ == old(self).transaction_receipts@,
    {
        let found = self.get_owner_metadata(
            metadata.data_key.clone(),
            metadata.program_id.clone(),
            metadata.public_key.clone(),
            metadata.alias.clone(),
            metadata.version.clone(),
        );
        match found {
            Ok(_) => Ok(()),
            Err(_) => {
                proof {
                    lemma_find_metadata_props(
                        self.metadatas@,
                        metadata.data_key@,
                        metadata.program_id@,
                        metadata.public_key@,
                        metadata.alias@,
                        metadata.version@,
                    );
                }
                self.metadatas.push(metadata);
                Ok(())
            },
        }
    }

    /// Point a slot at a new content block, in place.
    pub fn update_cid(
        &mut self,
        data_key: String,
        program_id: String,
        alias: String,
        public_key: String,
        cid: String,
        version: String,
    ) -> (r: Result<(), ServiceError>)
        ensures
            r is Ok,
            final(self).metadatas@ =~= spec_update_cid(
                old(self).metadatas@,
                data_key@,
                program_id@,
                alias@,
                public_key@,
                cid,
                version@,
            ),
            old(self).metadatas_wf() ==> final(self).metadatas_wf(),
            final(self).transactions@ == old(self).transactions@,
            final(self).meta_contracts@ == old(self).meta_contracts@,
            final(self).crons@ == old(self).crons@,
            final(self).cron_txs@ == old(self).cron_txs@,
            final(self).transaction_receipts@ == old(self).transaction_receipts@,
    {
        let ghost snap = *self;
        let ghost metas0 = self.metadatas@;
        let n = self.metadatas.len();
        let mut i: usize = 0;
        while i < n
            invariant
                n == self.metadatas@.len(),
                i <= n,
                self.metadatas@.len() == metas0.len(),
                self.transactions@ == snap.transactions@,
                self.meta_contracts@ == snap.meta_contracts@,
                self.crons@ == snap.crons@,
                self.cron_txs@ == snap.cron_txs@,
                self.transaction_receipts@ == snap.transaction_receipts@,
                forall|j: int| i <= j < n ==> self.metadatas@[j] == metas0[j],
                forall|j: int|
                    0 <= j < i ==> self.metadatas@[j] == (if metadata_key_matches(
                        metas0[j],
                        data_key@,
                        program_id@,
                        public_key@,
                        alias@,
                        version@,
                    ) {
                        spec_with_cid(metas0[j], cid)
                    } else {
                        metas0[j]
                    }),
            decreases n - i,
        {
            let matches = crate::strutil::string_eq_str(&self.metadatas[i].data_key, data_key.as_str())
                && crate::strutil::string_eq_str(&self.metadatas[i].program_id, program_id.as_str())
                && crate::strutil::string_eq_str(&self.metadatas[i].public_key, public_key.as_str())
                && crate::strutil::string_eq_str(&self.metadatas[i].alias, alias.as_str())
                && crate::strutil::string_eq_str(&self.metadatas[i].version, version.as_str());
            if matches {
                self.metadatas[i].cid = cid.clone();
                proof {
                    assert(self.metadatas@[i as int] == spec_with_cid(metas0[i as int], cid));
                }
            }
            i += 1;
        }
        proof {
            assert forall|j: int| 0 <= j < metas0.len() && metas0[j].wf() implies (
            #[trigger] self.metadatas@[j]).wf() by {}
            assert forall|j: int| 0 <= j < metas0.len() implies (#[trigger] self.metadatas@[j]).hash@
                == metas0[j].hash@ by {}
        }
        Ok(())
    }

    /// Look a slot up by its five identifying fields. The public key is part
    /// of the slot's identity, so what is found is owned by that key.
    pub fn get_owner_metadata(
        &self,
        data_key: String,
        program_id: String,
        public_key: String,
        alias: String,
        version: String,
    ) -> (r: Result<Metadata, ServiceError>)
        ensures
            match spec_find_metadata(
                self.metadatas@,
                data_key@,
                program_id@,
                public_key@,
                alias@,
                version@,
            ) {
                Some(m) => r matches Ok(rm) && rm == m,
                None => r matches Err(e) && e matches ServiceError::RecordNotFound(msg) && msg@
                    == "No record found"@,
            },
    {
        let n = self.metadatas.len();
        let mut i: usize = 0;
        proof {
            assert(self.metadatas@.skip(0) =~= self.metadatas@);
        }
        while i < n
            invariant
                n == self.metadatas@.len(),
                i <= n,
                spec_find_metadata(
                    self.metadatas@,
                    data_key@,
                    program_id@,
                    public_key@,
                    alias@,
                    version@,
                ) == spec_find_metadata(
                    self.metadatas@.skip(i as int),
                    data_key@,
                    program_id@,
                    public_key@,
                    alias@,
                    version@,
                ),
            decreases n - i,
        {
            proof {
                let sub = self.metadatas@.skip(i as int);
                assert(sub[0] == self.metadatas@[i as int]);
                assert(sub.drop_first() =~= self.metadatas@.skip(i + 1));
            }
            let matches = crate::strutil::string_eq_str(&self.metadatas[i].data_key, data_key.as_str())
                && crate::strutil::string_eq_str(&self.metadatas[i].program_id, program_id.as_str())
                && crate::strutil::string_eq_str(&self.metadatas[i].public_key, public_key.as_str())
                && crate::strutil::string_eq_str(&self.metadatas[i].alias, alias.as_str())
                && crate::strutil::string_eq_str(&self.metadatas[i].version, version.as_str());
            if matches {
                return Ok(self.metadatas[i].clone());
            }
            i += 1;
        }
        proof {
            assert(self.metadatas@.skip(n as int) =~= Seq::<Metadata>::empty());
        }
        Err(ServiceError::RecordNotFound(String::from_str("No record found")))
    }

    /// The first slot bearing a data key, public key and alias, whatever its
    /// program id and version.
    pub fn get_owner_metadata_by_datakey_and_alias(
        &self,
        data_key: String,
        public_key: String,
        alias: String,
    ) -> (r: Result<Metadata, ServiceError>)
        ensures
            match spec_find_metadata_by_owner(self.metadatas@, data_key@, public_key@, alias@) {
                Some(m) => r matches Ok(rm) && rm == m,
                None => r matches Err(e) && e matches ServiceError::RecordNotFound(msg) && msg@
                    == "No record found"@,
            },
    {
        let n = self.metadatas.len();
        let mut i: usize = 0;
        proof {
            assert(self.metadatas@.skip(0) =~= self.metadatas@);
        }
        while i < n
            invariant
                n == self.metadatas@.len(),
                i <= n,
                spec_find_metadata_by_owner(self.metadatas@, data_key@, public_key@, alias@)
                    == spec_find_metadata_by_owner(
                    self.metadatas@.skip(i as int),
                    data_key@,
                    public_key@,
                    alias@,
                ),
            decreases n - i,
        {
            proof {
                let sub = self.metadatas@.skip(i as int);
                assert(sub[0] == self.metadatas@[i as int]);
                assert(sub.drop_first() =~= self.metadatas@.skip(i + 1));
            }
            let matches = crate::strutil::string_eq_str(&self.metadatas[i].data_key, data_key.as_str())
                && crate::strutil::string_eq_str(&self.metadatas[i].public_key, public_key.as_str())
                && crate::strutil::string_eq_str(&self.metadatas[i].alias, alias.as_str());
            if matches {
                return Ok(self.metadatas[i].clone());
            }
            i += 1;
        }
        proof {
            assert(self.metadatas@.skip(n as int) =~= Seq::<Metadata>::empty());
        }
        Err(ServiceError::RecordNotFound(String::from_str("No record found")))
    }

    /// Every slot bearing a data key and version, over all owners and
    /// aliases.
    pub fn get_metadata_by_datakey_and_version(&self, data_key: String, version: String) -> (r:
        Result<Vec<Metadata>, ServiceError>)
        ensures
            r matches Ok(v) && v@ =~= self.metadatas@.filter(
                |m: Metadata| m.data_key@ == data_key@ && m.version@ == version@,
            ),
    {
        let mut out: Vec<Metadata> = Vec::new();
        let n = self.metadatas.len();
        let mut i: usize = 0;
        while i < n
            invariant
                n == self.metadatas@.len(),
                i <= n,
                out@ =~= self.metadatas@.take(i as int).filter(
                    |m: Metadata| m.data_key@ == data_key@ && m.version@ == version@,
                ),
            decreases n - i,
        {
            proof {
                broadcast use Seq::lemma_filter_push;

                assert(self.metadatas@.take(i + 1) =~= self.metadatas@.take(i as int).push(
                    self.metadatas@[i as int],
                ));
            }
            let matches = crate::strutil::string_eq_str(&self.metadatas[i].data_key, data_key.as_str())
                && crate::strutil::string_eq_str(&self.metadatas[i].version, version.as_str());
            if matches {
                out.push(self.metadatas[i].clone());
            }
            i += 1;
        }
        proof {
            assert(self.metadatas@.take(n as int) =~= self.metadatas@);
        }
        Ok(out)
    }
}

/// Is this row a metadata row?
pub open spec fn row_is_metadata(r: Row) -> bool {
    r is Metadata
}

/// Decode a raw query result into metadata rows; any row of another shape
/// is an internal error.
pub fn read(result: RQLiteResult) -> (r: Result<Vec<Metadata>, ServiceError>)
    requires
        result.rows is Some,
    ensures
        r matches Ok(v) ==> {
            &&& v@.len() == result.rows->Some_0@.len()
            &&& forall|i: int| 0 <= i < v@.len() ==> result.rows->Some_0@[i] == Row::Metadata(v@[i])
        },
        r is Ok <==> (forall|i: int|
            0 <= i < result.rows->Some_0@.len() ==> row_is_metadata(
                #[trigger] result.rows->Some_0@[i],
            )),
        r matches Err(e) ==> e is InternalError,
{
    let rows: &Vec<Row> = result.rows.as_ref().unwrap();
    let mut metas: Vec<Metadata> = Vec::new();
    let n = rows.len();
    let mut i: usize = 0;
    while i < n
        invariant
            result.rows is Some,
            rows@ == result.rows->Some_0@,
            n == rows@.len(),
            i <= n,
            metas@.len() == i,
            forall|j: int| 0 <= j < i ==> rows@[j] == Row::Metadata(metas@[j]),
            forall|j: int| 0 <= j < i ==> row_is_metadata(#[trigger] rows@[j]),
        decreases n - i,
    {
        match &rows[i] {
            Row::Metadata(m) => {
                metas.push(m.clone());
            },
            _ => {
                proof {
                    assert(!row_is_metadata(result.rows->Some_0@[i as int]));
                }
                return Err(
                    ServiceError::InternalError(String::from_str("Invalid data format: metadatas")),
                );
            },
        }
        i += 1;
    }
    Ok(metas)
}

} // verus!
