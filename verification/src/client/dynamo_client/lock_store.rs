use crate::client::dynamo_client::decimal::{
    decimal, decimal_text, signed_decimal, signed_decimal_text,
};
use crate::client::dynamo_client::item::{AttributeValue, AttributeValueView, Item};
use crate::data::LockKey;
use crate::locker::{
    acquired, lock_reply, lock_result, released, reply_view, unlock_reply, unlock_result,
    DeleteOutcome, PutOutcome, FIRST_CLAIM, SECOND_CLAIM,
};
use crate::LockerResult;
use vstd::prelude::*;
use vstd::string::StringExecFns;

verus! {

/// A conditional write of one record.
#[derive(Debug)]
pub struct PutItemInput {
    /// The condition under which the record is written.
    pub condition_expression: Option<String>,
    /// The values that the condition names, each under its placeholder.
    pub expression_attribute_values: Option<Item>,
    /// The record to write.
    pub item: Item,
    /// The table that holds the lock records.
    pub table_name: String,
}

/// The deletion of one record.
#[derive(Debug)]
pub struct DeleteItemInput {
    /// The condition under which the record is deleted.
    pub condition_expression: Option<String>,
    /// The primary key of the record.
    pub key: Item,
    /// Which attributes of the deleted record the store hands back.
    pub return_values: Option<String>,
    /// The table that holds the lock records.
    pub table_name: String,
}

/// A `PutItemInput`, with strings as sequences of characters and items as
/// maps.
pub struct PutItemInputView {
    pub condition_expression: Option<Seq<char>>,
    pub expression_attribute_values: Option<Map<Seq<char>, AttributeValueView>>,
    pub item: Map<Seq<char>, AttributeValueView>,
    pub table_name: Seq<char>,
}

/// A `DeleteItemInput`, with strings as sequences of characters and items as
/// maps.
pub struct DeleteItemInputView {
    pub condition_expression: Option<Seq<char>>,
    pub key: Map<Seq<char>, AttributeValueView>,
    pub return_values: Option<Seq<char>>,
    pub table_name: Seq<char>,
}

impl View for PutItemInput {
    type V = PutItemInputView;

    open spec fn view(&self) -> PutItemInputView {
        PutItemInputView {
            condition_expression: match self.condition_expression {
                Some(expression) => Some(expression@),
                None => None,
            },
            expression_attribute_values: match self.expression_attribute_values {
                Some(values) => Some(values@),
                None => None,
            },
            item: self.item@,
            table_name: self.table_name@,
        }
    }
}

impl View for DeleteItemInput {
    type V = DeleteItemInputView;

    open spec fn view(&self) -> DeleteItemInputView {
        DeleteItemInputView {
            condition_expression: match self.condition_expression {
                Some(expression) => Some(expression@),
                None => None,
            },
            key: self.key@,
            return_values: match self.return_values {
                Some(which) => Some(which@),
                None => None,
            },
            table_name: self.table_name@,
        }
    }
}

/// The lock protocol on a DynamoDB table: which requests acquire and release
/// a lock, and what the table's answers mean.
///
/// The client builds requests and reads answers; it sends nothing and reads
/// no clock. A lock record is keyed by the lock key's string and carries a
/// status, 1 for a first claimant and 2 for a second one, and the time of
/// the claim, which the caller reads and hands in as seconds since the Unix
/// epoch.
#[derive(Debug)]
pub struct DynamoLockStoreClient {
    /// The table that holds the lock records.
    pub table_name: String,
    /// The attribute that holds the key's string: the table's primary key.
    pub id_attribute_name: String,
    /// The attribute that holds the status.
    pub status_attribute_name: String,
    /// The attribute that holds the time of the claim, in seconds since the
    /// Unix epoch.
    pub locked_at_attribute_name: String,
}

impl Clone for DynamoLockStoreClient {
    fn clone(&self) -> (copy: DynamoLockStoreClient)
        ensures
            copy == *self,
    {
        DynamoLockStoreClient {
            table_name: self.table_name.clone(),
            id_attribute_name: self.id_attribute_name.clone(),
            status_attribute_name: self.status_attribute_name.clone(),
            locked_at_attribute_name: self.locked_at_attribute_name.clone(),
        }
    }
}

impl DynamoLockStoreClient {
    /// The primary key of the record of `key`.
    pub open spec fn key_item(&self, key: Seq<char>) -> Map<Seq<char>, AttributeValueView> {
        Map::<Seq<char>, AttributeValueView>::empty().insert(
            self.id_attribute_name@,
            AttributeValueView::S(key),
        )
    }

    /// The record that a claim of `key` with status `n` at time `now`
    /// writes. Where two attribute names are the same, the later of id,
    /// status and time counts.
    pub open spec fn lock_item(&self, key: Seq<char>, n: nat, now: int) -> Map<
        Seq<char>,
        AttributeValueView,
    > {
        self.key_item(key).insert(
            self.status_attribute_name@,
            AttributeValueView::N(decimal(n)),
        ).insert(self.locked_at_attribute_name@, AttributeValueView::N(signed_decimal(now)))
    }

    /// The condition of a first claim: the record has no status.
    pub open spec fn first_lock_expression(&self) -> Seq<char> {
        "attribute_not_exists("@ + self.status_attribute_name@ + ")"@
    }

    /// The condition of a second claim: the status equals the value under
    /// the placeholder `:n`.
    pub open spec fn second_lock_expression(&self) -> Seq<char> {
        self.status_attribute_name@ + " = :n"@
    }

    /// The request of a first claim of `key` at time `now`.
    pub open spec fn first_lock_input(&self, key: Seq<char>, now: int) -> PutItemInputView {
        PutItemInputView {
            condition_expression: Some(self.first_lock_expression()),
            expression_attribute_values: None,
            item: self.lock_item(key, 1, now),
            table_name: self.table_name@,
        }
    }

    /// The request of a second claim of `key` at time `now`: it asks for a
    /// record of status 1.
    pub open spec fn second_lock_input(&self, key: Seq<char>, now: int) -> PutItemInputView {
        PutItemInputView {
            condition_expression: Some(self.second_lock_expression()),
            expression_attribute_values: Some(
                Map::<Seq<char>, AttributeValueView>::empty().insert(
                    ":n"@,
                    AttributeValueView::N(decimal(1)),
                ),
            ),
            item: self.lock_item(key, 2, now),
            table_name: self.table_name@,
        }
    }

    /// The request that releases `key`: an unconditional deletion that asks
    /// for all the attributes that the record had.
    pub open spec fn unlock_input(&self, key: Seq<char>) -> DeleteItemInputView {
        DeleteItemInputView {
            condition_expression: None,
            key: self.key_item(key),
            return_values: Some("ALL_OLD"@),
            table_name: self.table_name@,
        }
    }

    /// A client for the table `table_name`, with the attribute names
    /// `hash_key`, `locked` and `locked_at`.
    pub fn new(table_name: String) -> (client: DynamoLockStoreClient)
        ensures
            client.table_name@ == table_name@,
            client.id_attribute_name@ == "hash_key"@,
            client.status_attribute_name@ == "locked"@,
            client.locked_at_attribute_name@ == "locked_at"@,
    {
        DynamoLockStoreClient {
            table_name,
            id_attribute_name: String::from_str("hash_key"),
            status_attribute_name: String::from_str("locked"),
            locked_at_attribute_name: String::from_str("locked_at"),
        }
    }

    fn table(&self) -> (name: String)
        ensures
            name@ == self.table_name@,
    {
        self.table_name.clone()
    }

    fn id_attr(&self) -> (name: String)
        ensures
            name@ == self.id_attribute_name@,
    {
        self.id_attribute_name.clone()
    }

    fn status_attr(&self) -> (name: String)
        ensures
            name@ == self.status_attribute_name@,
    {
        self.status_attribute_name.clone()
    }

    fn at_attr(&self) -> (name: String)
        ensures
            name@ == self.locked_at_attribute_name@,
    {
        self.locked_at_attribute_name.clone()
    }

    /// Builds the primary key of the record of `key`.
    pub fn create_key_item(&self, key: LockKey) -> (item: Item)
        ensures
            item@ == self.key_item(key@),
    {
        let mut item = Item::new();
        item.insert(self.id_attr(), AttributeValue::S(key.into_string()));
        item
    }

    /// Builds the record that a claim of `key` with status `n` at time
    /// `now` writes.
    pub fn create_lock_item(&self, key: LockKey, n: usize, now: i64) -> (item: Item)
        ensures
            item@ == self.lock_item(key@, n as nat, now as int),
    {
        let mut item = self.create_key_item(key);
        item.insert(self.status_attr(), AttributeValue::N(decimal_text(n as u64)));
        item.insert(self.at_attr(), AttributeValue::N(signed_decimal_text(now)));
        item
    }

    /// Builds the condition of a first claim.
    pub fn create_first_lock_expression(&self) -> (expression: Option<String>)
        ensures
            expression matches Some(text) && text@ == self.first_lock_expression(),
    {
        let text = String::from_str("attribute_not_exists(").concat(
            self.status_attribute_name.as_str(),
        ).concat(")");
        Some(text)
    }

    /// Builds the request of a first claim of `key` at time `now`.
    pub fn create_first_lock_input(&self, key: LockKey, now: i64) -> (input: PutItemInput)
        ensures
            input@ == self.first_lock_input(key@, now as int),
    {
        PutItemInput {
            condition_expression: self.create_first_lock_expression(),
            expression_attribute_values: None,
            item: self.create_lock_item(key, FIRST_CLAIM, now),
            table_name: self.table(),
        }
    }

    /// Builds the condition of a second claim.
    pub fn create_second_lock_expression(&self) -> (expression: Option<String>)
        ensures
            expression matches Some(text) && text@ == self.second_lock_expression(),
    {
        let text = self.status_attr().concat(" = :n");
        Some(text)
    }

    /// Builds the request of a second claim of `key` at time `now`.
    pub fn create_second_lock_input(&self, key: LockKey, now: i64) -> (input: PutItemInput)
        ensures
            input@ == self.second_lock_input(key@, now as int),
    {
        let mut values = Item::new();
        values.insert(String::from_str(":n"), AttributeValue::N(decimal_text(FIRST_CLAIM as u64)));

        PutItemInput {
            condition_expression: self.create_second_lock_expression(),
            expression_attribute_values: Some(values),
            item: self.create_lock_item(key, SECOND_CLAIM, now),
            table_name: self.table(),
        }
    }

    /// Builds the request that releases `key`.
    pub fn create_unlock_input(&self, key: LockKey) -> (input: DeleteItemInput)
        ensures
            input@ == self.unlock_input(key@),
    {
        DeleteItemInput {
            condition_expression: None,
            key: self.create_key_item(key),
            return_values: Some(String::from_str("ALL_OLD")),
            table_name: self.table(),
        }
    }

    /// The reply to a first claim of `key`, given the table's answer to the
    /// request of `create_first_lock_input`.
    pub fn lock(&self, key: LockKey, outcome: PutOutcome) -> (reply: LockerResult<()>)
        ensures
            reply_view(reply) == acquired(key@, outcome),
            lock_reply(key@, reply),
    {
        lock_result(key, outcome)
    }

    /// The reply to a second claim of `key`, given the table's answer to the
    /// request of `create_second_lock_input`.
    pub fn lock_if_locked(&self, key: LockKey, outcome: PutOutcome) -> (reply: LockerResult<()>)
        ensures
            reply_view(reply) == acquired(key@, outcome),
            lock_reply(key@, reply),
    {
        lock_result(key, outcome)
    }

    /// The reply to a release of `key`, given the table's answer to the
    /// request of `create_unlock_input`.
    pub fn unlock<P>(&self, key: LockKey, outcome: DeleteOutcome<P>) -> (reply: LockerResult<()>)
        ensures
            reply_view(reply) == released(key@, outcome),
            unlock_reply(key@, reply),
    {
        unlock_result(key, outcome)
    }
}

} // verus!
