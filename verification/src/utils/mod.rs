pub mod pydantic_helper;
