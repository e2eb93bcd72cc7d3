use vstd::prelude::*;
use crate::command::redis_command::RedisCommand;

verus! {

/// `EXISTS`: whether a key exists.
pub fn exists_command() -> (c: RedisCommand<bool>)
    ensures
        c.name_spec() == "EXISTS"@,
{
    RedisCommand::new("EXISTS")
}

/// `HEXISTS`: whether a hash has a field.
pub fn hexists_command() -> (c: RedisCommand<bool>)
    ensures
        c.name_spec() == "HEXISTS"@,
{
    RedisCommand::new("HEXISTS")
}

/// `PTTL`: a key's remaining time to live in ms.
pub fn pttl_command() -> (c: RedisCommand<i64>)
    ensures
        c.name_spec() == "PTTL"@,
{
    RedisCommand::new("PTTL")
}

/// `DEL`: deletes keys; replies how many there were.
pub fn del_command() -> (c: RedisCommand<i64>)
    ensures
        c.name_spec() == "DEL"@,
{
    RedisCommand::new("DEL")
}

/// `GET`: a string value, if any.
pub fn get_command() -> (c: RedisCommand<Option<String>>)
    ensures
        c.name_spec() == "GET"@,
{
    RedisCommand::new("GET")
}

/// `SET`: sets a string value.
pub fn set_command() -> (c: RedisCommand<()>)
    ensures
        c.name_spec() == "SET"@,
{
    RedisCommand::new("SET")
}

/// `STRLEN`: the length of a string value.
pub fn strlen_command() -> (c: RedisCommand<i64>)
    ensures
        c.name_spec() == "STRLEN"@,
{
    RedisCommand::new("STRLEN")
}

} // verus!
